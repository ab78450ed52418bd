//! The traversal as a state machine: a work list of directories still to be
//! listed, the counters, and whether a listing has failed.
//!
//! The caller owns the filesystem. It asks [`Walker::step`] what to do, lists
//! the directory it is handed, and reports each entry with [`Walker::record`]
//! or the failure with [`Walker::listing_failed`]. The walker never looks at
//! a path: `P` is whatever the caller uses to name a directory.

use vstd::prelude::*;
use crate::counters::{Counters, Tally};

verus! {

/// One entry of a directory listing, as the caller found it.
#[derive(Debug)]
pub enum Found<P> {
    /// The entry is a directory, named by the value.
    Directory(P),
    /// The entry is anything else; `size` is `None` where its metadata could
    /// not be read.
    File { size: Option<u64> },
}

/// What a progress display has to show for one recorded entry. A directory
/// shows up later, when [`Walker::step`] hands it out to be listed.
#[derive(Clone, Copy, Debug, PartialEq, Eq, Structural)]
pub enum Shown {
    /// Nothing yet.
    Nothing,
    /// One more file, whose size is unknown.
    File,
    /// One more file and this many more bytes.
    SizedFile(u64),
}

/// What the caller has to do next.
#[derive(Debug)]
pub enum Step<P> {
    /// List this directory, which has just been counted: a progress display
    /// shows one more directory.
    List(P),
    /// Nothing is left to list: these are the final counters.
    Done(Counters),
    /// A listing has failed: the traversal is over and reports nothing.
    Failed,
}

/// The state of one traversal.
pub struct Walker<P> {
    pending: Vec<P>,
    counters: Counters,
    failed: bool,
}

impl<P> Walker<P> {
    /// The directories found and not yet listed; the last one is listed next.
    pub closed spec fn pending(&self) -> Seq<P> {
        self.pending@
    }

    /// The counters so far.
    pub closed spec fn counters(&self) -> Counters {
        self.counters
    }

    /// Whether a listing has failed.
    pub closed spec fn failed(&self) -> bool {
        self.failed
    }

    /// A traversal that has yet to visit its root.
    pub fn new(root: P) -> (w: Walker<P>)
        ensures
            w.pending() == seq![root],
            w.counters() == Counters::of(Tally::zero()),
            !w.failed(),
    {
        let mut pending: Vec<P> = Vec::new();
        pending.push(root);
        Walker { pending, counters: Counters::new(), failed: false }
    }

    /// Decides the next move. After a failure the answer is `Failed`, for
    /// good. Otherwise the most recently found directory is taken off the work
    /// list, counted, and handed out to be listed; when the list is empty the
    /// traversal is complete and the counters are handed out.
    pub fn step(&mut self) -> (s: Step<P>)
        ensures
            final(self).failed() == old(self).failed(),
            old(self).failed() ==> {
                &&& s is Failed
                &&& final(self).pending() == old(self).pending()
                &&& final(self).counters() == old(self).counters()
            },
            !old(self).failed() && old(self).pending().len() == 0 ==> {
                &&& s == Step::<P>::Done(old(self).counters())
                &&& final(self).pending() == old(self).pending()
                &&& final(self).counters() == old(self).counters()
            },
            !old(self).failed() && old(self).pending().len() > 0 ==> {
                &&& s == Step::List(old(self).pending().last())
                &&& final(self).pending() == old(self).pending().drop_last()
                &&& final(self).counters() == old(self).counters().with_directory()
            },
    {
        if self.failed {
            return Step::Failed;
        }
        match self.pending.pop() {
            Some(dir) => {
                self.counters.count_directory();
                Step::List(dir)
            },
            None => Step::Done(self.counters),
        }
    }

    /// Takes note of one entry of the directory being listed: a directory
    /// joins the work list, anything else is counted as a file, with its size
    /// where the size is known. The answer says what a progress display has to
    /// show for the entry. After a failure nothing is taken note of any more.
    pub fn record(&mut self, entry: Found<P>) -> (shown: Shown)
        ensures
            final(self).failed() == old(self).failed(),
            old(self).failed() ==> {
                &&& final(self).pending() == old(self).pending()
                &&& final(self).counters() == old(self).counters()
                &&& shown == Shown::Nothing
            },
            !old(self).failed() ==> match entry {
                Found::Directory(dir) => {
                    &&& final(self).pending() == old(self).pending().push(dir)
                    &&& final(self).counters() == old(self).counters()
                    &&& shown == Shown::Nothing
                },
                Found::File { size: None } => {
                    &&& final(self).pending() == old(self).pending()
                    &&& final(self).counters() == old(self).counters().with_file(None)
                    &&& shown == Shown::File
                },
                Found::File { size: Some(n) } => {
                    &&& final(self).pending() == old(self).pending()
                    &&& final(self).counters() == old(self).counters().with_file(Some(n))
                    &&& shown == Shown::SizedFile(n)
                },
            },
    {
        if self.failed {
            return Shown::Nothing;
        }
        match entry {
            Found::Directory(dir) => {
                self.pending.push(dir);
                Shown::Nothing
            },
            Found::File { size } => {
                self.counters.count_file(size);
                match size {
                    Some(n) => Shown::SizedFile(n),
                    None => Shown::File,
                }
            },
        }
    }

    /// Takes note that the directory handed out last could not be listed, or
    /// that its listing broke off.
    pub fn listing_failed(&mut self)
        ensures
            final(self).failed(),
            final(self).pending() == old(self).pending(),
            final(self).counters() == old(self).counters(),
    {
        self.failed = true;
    }
}

} // verus!
