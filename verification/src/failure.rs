//! The ways in which a run can end without a report.

use vstd::prelude::*;
use crate::paint::{paint, painted, Tone};

verus! {

/// The usage line for a program called `program`.
pub open spec fn usage_text(program: Seq<char>) -> Seq<char> {
    "Usage: "@ + program + " <directory>"@
}

/// Builds the usage line for a program called `program`.
pub fn usage(program: &str) -> (line: String)
    ensures
        line@ == usage_text(program@),
{
    let mut line = String::from_str("Usage: ");
    line.append(program);
    line.append(" <directory>");
    line
}

/// Why no statistics were produced.
#[derive(Clone, Copy, Debug, PartialEq, Eq, Structural)]
pub enum Failure {
    /// The command line did not hold exactly one directory argument.
    WrongArguments,
    /// The given path exists but is not a directory.
    NotADirectory,
    /// The metadata of the given path could not be read.
    RootUnreadable,
    /// A directory could not be listed during the traversal.
    ListingFailed,
}

impl Failure {
    /// A usage failure is reported to the user and the program ends cleanly.
    pub open spec fn spec_is_usage(&self) -> bool {
        *self == Failure::WrongArguments || *self == Failure::NotADirectory
    }

    /// An input/output failure is fatal.
    pub open spec fn spec_is_fatal(&self) -> bool {
        *self == Failure::RootUnreadable || *self == Failure::ListingFailed
    }

    /// The words for this failure, in a program called `program`.
    pub open spec fn message_text(&self, program: Seq<char>) -> Seq<char> {
        match self {
            Failure::WrongArguments => usage_text(program),
            Failure::NotADirectory => "Provided path is not a directory"@,
            Failure::RootUnreadable => "Unable to read metadata"@,
            Failure::ListingFailed => "Error reading directory"@,
        }
    }

    /// Whether this failure is a usage failure.
    #[verifier::when_used_as_spec(spec_is_usage)]
    pub fn is_usage(&self) -> (b: bool)
        ensures
            b == self.spec_is_usage(),
    {
        match self {
            Failure::WrongArguments => true,
            Failure::NotADirectory => true,
            _ => false,
        }
    }

    /// Whether this failure is an input/output failure.
    #[verifier::when_used_as_spec(spec_is_fatal)]
    pub fn is_fatal(&self) -> (b: bool)
        ensures
            b == self.spec_is_fatal(),
            b == !self.spec_is_usage(),
    {
        match self {
            Failure::RootUnreadable => true,
            Failure::ListingFailed => true,
            _ => false,
        }
    }

    /// Builds the words for this failure, in a program called `program`.
    pub fn message(&self, program: &str) -> (text: String)
        ensures
            text@ == self.message_text(program@),
    {
        match self {
            Failure::WrongArguments => usage(program),
            Failure::NotADirectory => String::from_str("Provided path is not a directory"),
            Failure::RootUnreadable => String::from_str("Unable to read metadata"),
            Failure::ListingFailed => String::from_str("Error reading directory"),
        }
    }

    /// Builds what the user is shown for this failure: the words of a usage
    /// failure in the colour of errors, the words of a fatal failure as they
    /// are.
    pub fn complaint(&self, program: &str) -> (text: String)
        ensures
            self.spec_is_usage() ==> painted(self.message_text(program@), Tone::Error, text@),
            self.spec_is_fatal() ==> text@ == self.message_text(program@),
    {
        let words = self.message(program);
        if self.is_usage() {
            paint(words.as_str(), Tone::Error)
        } else {
            words
        }
    }
}

} // verus!
