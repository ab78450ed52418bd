//! What is decided before the traversal starts: which directory is meant,
//! and whether it can be walked.

use vstd::prelude::*;
use crate::failure::Failure;

verus! {

/// Picks the directory out of the command line. `args` is the whole line,
/// the program's name first; exactly one argument must follow it.
pub fn directory_argument(args: &Vec<String>) -> (r: Result<&String, Failure>)
    ensures
        args@.len() == 2 ==> r == Ok::<&String, Failure>(&args@[1]),
        args@.len() != 2 ==> r == Err::<&String, Failure>(Failure::WrongArguments),
{
    if args.len() == 2 {
        Ok(&args[1])
    } else {
        Err(Failure::WrongArguments)
    }
}

/// Judges the root from what its metadata said: `None` where the metadata
/// could not be read, otherwise whether the path is a directory.
pub fn check_root(is_directory: Option<bool>) -> (r: Result<(), Failure>)
    ensures
        is_directory == Some(true) ==> r == Ok::<(), Failure>(()),
        is_directory == Some(false) ==> r == Err::<(), Failure>(Failure::NotADirectory),
        is_directory == None::<bool> ==> r == Err::<(), Failure>(Failure::RootUnreadable),
{
    match is_directory {
        Some(true) => Ok(()),
        Some(false) => Err(Failure::NotADirectory),
        None => Err(Failure::RootUnreadable),
    }
}

} // verus!
