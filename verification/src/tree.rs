//! A directory tree held in memory, its exact totals, and the traversal of
//! such a tree.

use vstd::prelude::*;
use crate::counters::{lemma_with_directory, lemma_with_file, Counters, Tally};
use crate::failure::Failure;
use crate::walker::{Found, Step, Walker};

verus! {

/// What a path leads to.
#[derive(Debug)]
pub enum Node {
    /// Anything that is not a directory. `size` is its length in bytes, or
    /// `None` where its metadata cannot be read.
    File { size: Option<u64> },
    /// A directory with its immediate entries, in the order in which a
    /// listing yields them.
    Directory { entries: Vec<Node> },
    /// A directory that cannot be listed, or whose listing breaks off.
    Unlistable,
}

impl Node {
    /// The exact totals of the tree below and including `self`: every file
    /// counts once, with its size where that is readable; every directory
    /// counts once, the root among them.
    pub open spec fn tally(self) -> Tally
        decreases self,
    {
        match self {
            Node::File { size } => Tally::file(size),
            Node::Directory { entries } => Tally::directory().plus(forest_tally(entries@)),
            Node::Unlistable => Tally::directory(),
        }
    }

    /// Every directory of the tree can be listed.
    pub open spec fn listable(self) -> bool
        decreases self,
    {
        match self {
            Node::File { .. } => true,
            Node::Directory { entries } => forest_listable(entries@),
            Node::Unlistable => false,
        }
    }

    /// What a traversal that starts at `self` ends with.
    pub open spec fn outcome(self) -> Result<Counters, Failure> {
        if self is File {
            Err(Failure::NotADirectory)
        } else if !self.listable() {
            Err(Failure::ListingFailed)
        } else {
            Ok(Counters::of(self.tally()))
        }
    }
}

/// The sum of the totals of the trees in `nodes`.
pub open spec fn forest_tally(nodes: Seq<Node>) -> Tally
    decreases nodes,
{
    if nodes.len() == 0 {
        Tally::zero()
    } else {
        forest_tally(nodes.drop_last()).plus(nodes.last().tally())
    }
}

/// Every directory of every tree in `nodes` can be listed.
pub open spec fn forest_listable(nodes: Seq<Node>) -> bool
    decreases nodes,
{
    if nodes.len() == 0 {
        true
    } else {
        forest_listable(nodes.drop_last()) && nodes.last().listable()
    }
}

/// One more tree at the end of a forest adds its totals and its listability.
pub proof fn lemma_forest_push(nodes: Seq<Node>, node: Node)
    ensures
        forest_tally(nodes.push(node)) == forest_tally(nodes).plus(node.tally()),
        forest_listable(nodes.push(node)) == (forest_listable(nodes) && node.listable()),
{
    assert(nodes.push(node).drop_last() =~= nodes);
    assert(nodes.push(node).last() == node);
}

/// The trees that a work list of references points to.
pub open spec fn targets(refs: Seq<&Node>) -> Seq<Node> {
    Seq::new(refs.len(), |i: int| *refs[i])
}

/// Walks the tree at `root` and returns its counters.
///
/// The walk fails on a root that is not a directory, and it fails when any
/// directory of the tree cannot be listed; otherwise it returns the totals of
/// the tree, each modulo 2^64.
pub fn walk(root: &Node) -> (r: Result<Counters, Failure>)
    ensures
        r == root.outcome(),
{
    if let Node::File { .. } = root {
        return Err(Failure::NotADirectory);
    }
    let mut walker: Walker<&Node> = Walker::new(root);
    let ghost mut done = Tally::zero();
    proof {
        assert(targets(walker.pending()) =~= Seq::<Node>::empty().push(*root));
        lemma_forest_push(Seq::<Node>::empty(), *root);
    }
    loop
        invariant
            !(root is File),
            walker.failed() ==> !root.listable(),
            !walker.failed() ==> {
                &&& walker.counters() == Counters::of(done)
                &&& done.plus(forest_tally(targets(walker.pending()))) == root.tally()
                &&& forest_listable(targets(walker.pending())) == root.listable()
                &&& forall|j: int| 0 <= j < walker.pending().len() ==> !(walker.pending()[j] is File)
            },
        decreases
            (if walker.failed() { 0 } else { 1 + root.tally().dirs - done.dirs }),
    {
        let ghost before = walker.pending();
        match walker.step() {
            Step::Done(counters) => {
                return Ok(counters);
            },
            Step::Failed => {
                return Err(Failure::ListingFailed);
            },
            Step::List(dir) => {
                proof {
                    assert(targets(before) =~= targets(walker.pending()).push(*dir));
                    lemma_forest_push(targets(walker.pending()), *dir);
                    lemma_with_directory(done);
                    done = done.plus(Tally::directory());
                }
                match dir {
                    Node::Directory { entries } => {
                        let ghost rest = walker.pending();
                        let ghost counted = done;
                        let mut i: usize = 0;
                        while i < entries.len()
                            invariant
                                i <= entries.len(),
                                !walker.failed(),
                                walker.counters() == Counters::of(done),
                                done.dirs == counted.dirs,
                                done.plus(forest_tally(targets(walker.pending())))
                                    == counted.plus(forest_tally(targets(rest))).plus(
                                    forest_tally(entries@.take(i as int)),
                                ),
                                forest_listable(targets(walker.pending())) == (forest_listable(
                                    targets(rest),
                                ) && forest_listable(entries@.take(i as int))),
                                forall|j: int|
                                    0 <= j < walker.pending().len() ==> !(walker.pending()[j] is File),
                            decreases entries.len() - i,
                        {
                            let entry = &entries[i];
                            let ghost queue = walker.pending();
                            proof {
                                assert(entries@.take(i + 1) =~= entries@.take(i as int).push(
                                    *entry,
                                ));
                                lemma_forest_push(entries@.take(i as int), *entry);
                            }
                            match entry {
                                Node::File { size } => {
                                    let _ = walker.record(Found::File { size: *size });
                                    proof {
                                        lemma_with_file(done, *size);
                                        done = done.plus(Tally::file(*size));
                                    }
                                },
                                _ => {
                                    let _ = walker.record(Found::Directory(entry));
                                    proof {
                                        assert(targets(walker.pending()) =~= targets(queue).push(
                                            *entry,
                                        ));
                                        lemma_forest_push(targets(queue), *entry);
                                    }
                                },
                            }
                            i += 1;
                        }
                        proof {
                            assert(entries@.take(i as int) =~= entries@);
                        }
                    },
                    Node::Unlistable => {
                        walker.listing_failed();
                    },
                    Node::File { .. } => {
                        // Never taken: only directories join the work list.
                    },
                }
            },
        }
    }
}

} // verus!
