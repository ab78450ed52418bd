//! Directory statistics: how many files, how many directories and how many
//! bytes a directory tree holds.
//!
//! The crate never touches the filesystem itself. A [`walker::Walker`] keeps
//! the work list and the counters of a traversal and is told, entry by entry,
//! what the host found; [`tree::walk`] runs the same traversal over an
//! in-memory snapshot of a tree. Everything stated in a contract here is
//! proved, except for the few calls into other crates, which are marked where
//! they stand.

pub mod counters;
pub mod failure;
pub mod walker;
pub mod tree;
pub mod text;
pub mod paint;
pub mod report;
pub mod cli;
pub mod laws;
