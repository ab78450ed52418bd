//! The three accumulators of a traversal and their mathematical totals.

use vstd::prelude::*;

verus! {

/// The exact totals of a tree: unbounded naturals.
pub struct Tally {
    pub files: nat,
    pub dirs: nat,
    pub bytes: nat,
}

impl Tally {
    /// Nothing counted.
    pub open spec fn zero() -> Tally {
        Tally { files: 0, dirs: 0, bytes: 0 }
    }

    /// One directory, before anything inside it is counted.
    pub open spec fn directory() -> Tally {
        Tally { files: 0, dirs: 1, bytes: 0 }
    }

    /// One file; a file whose size could not be read contributes no bytes.
    pub open spec fn file(size: Option<u64>) -> Tally {
        Tally {
            files: 1,
            dirs: 0,
            bytes: match size {
                Some(n) => n as nat,
                None => 0,
            },
        }
    }

    /// Componentwise sum.
    pub open spec fn plus(self, other: Tally) -> Tally {
        Tally {
            files: self.files + other.files,
            dirs: self.dirs + other.dirs,
            bytes: self.bytes + other.bytes,
        }
    }

    /// Every total is small enough for a 64-bit counter.
    pub open spec fn fits(self) -> bool {
        self.files <= u64::MAX && self.dirs <= u64::MAX && self.bytes <= u64::MAX
    }
}

/// The residue of `n` in a 64-bit counter.
pub open spec fn wrap(n: nat) -> u64 {
    (n % 0x1_0000_0000_0000_0000) as u64
}

/// File count, directory count and total size in bytes.
///
/// The counters are 64 bits wide and wrap around on overflow, so a value of
/// this type holds the totals modulo 2^64 (see [`Counters::of`]).
#[derive(Clone, Copy, Debug, PartialEq, Eq, Structural)]
pub struct Counters {
    pub files: u64,
    pub dirs: u64,
    pub bytes: u64,
}

impl Counters {
    /// The counters that hold the totals `t`.
    pub open spec fn of(t: Tally) -> Counters {
        Counters { files: wrap(t.files), dirs: wrap(t.dirs), bytes: wrap(t.bytes) }
    }

    /// The counters after one more directory.
    pub open spec fn with_directory(self) -> Counters {
        Counters { dirs: u64::wrapping_add(self.dirs, 1), ..self }
    }

    /// The counters after one more file of the given size.
    pub open spec fn with_file(self, size: Option<u64>) -> Counters {
        Counters {
            files: u64::wrapping_add(self.files, 1),
            dirs: self.dirs,
            bytes: match size {
                Some(n) => u64::wrapping_add(self.bytes, n),
                None => self.bytes,
            },
        }
    }

    /// All three counters at zero.
    pub fn new() -> (c: Counters)
        ensures
            c == Counters::of(Tally::zero()),
            c.files == 0 && c.dirs == 0 && c.bytes == 0,
    {
        Counters { files: 0, dirs: 0, bytes: 0 }
    }

    /// Counts one directory.
    pub fn count_directory(&mut self)
        ensures
            *final(self) == old(self).with_directory(),
    {
        self.dirs = self.dirs.wrapping_add(1);
    }

    /// Counts one file, and its size where the size is known.
    pub fn count_file(&mut self, size: Option<u64>)
        ensures
            *final(self) == old(self).with_file(size),
    {
        self.files = self.files.wrapping_add(1);
        if let Some(n) = size {
            self.bytes = self.bytes.wrapping_add(n);
        }
    }
}

/// Counting a directory on wrapped counters is counting it on the totals.
pub proof fn lemma_with_directory(t: Tally)
    ensures
        Counters::of(t).with_directory() == Counters::of(t.plus(Tally::directory())),
{
}

/// Counting a file on wrapped counters is counting it on the totals.
pub proof fn lemma_with_file(t: Tally, size: Option<u64>)
    ensures
        Counters::of(t).with_file(size) == Counters::of(t.plus(Tally::file(size))),
{
}

} // verus!
