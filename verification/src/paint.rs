//! Terminal colours for the texts that the program prints.
//!
//! Whether colours are emitted at all is decided outside this crate, from the
//! environment and from what standard output is connected to. The contracts
//! here therefore allow both answers.

use vstd::prelude::*;
use colored::Colorize;

verus! {

/// The colour of a text.
#[derive(Clone, Copy, Debug, PartialEq, Eq, Structural)]
pub enum Tone {
    /// Red: something is wrong.
    Error,
    /// Cyan: a line of the report.
    Info,
}

impl Tone {
    /// The colour's number in a "select graphic rendition" sequence.
    pub open spec fn code(self) -> Seq<char> {
        match self {
            Tone::Error => seq!['3', '1'],
            Tone::Info => seq!['3', '6'],
        }
    }
}

/// The escape character, which starts every control sequence.
pub open spec fn escape() -> char {
    '\x1b'
}

/// The sequence that resets all attributes.
pub open spec fn reset() -> Seq<char> {
    seq![escape(), '[', '0', 'm']
}

/// `text` between the sequence that selects the colour `code` and the
/// sequence that resets all attributes.
pub open spec fn ansi(code: Seq<char>, text: Seq<char>) -> Seq<char> {
    seq![escape(), '['] + code + seq!['m'] + text + reset()
}

/// `out` is `text` in the colour `tone`, or `text` itself where colours are
/// switched off, or `text` with the closing sequence alone where they are
/// switched off while the text is being formatted. Nothing is said of a text
/// that holds an escape character.
pub open spec fn painted(text: Seq<char>, tone: Tone, out: Seq<char>) -> bool {
    ||| text.contains(escape())
    ||| out == text
    ||| out == ansi(tone.code(), text)
    ||| out == text + reset()
}

/// Calls `colored::Colorize::red` on `text` and formats the result.
///
/// Trusted: the formatted result is `text` unchanged when colouring is off,
/// and otherwise `ESC [ 3 1 m`, `text`, `ESC [ 0 m`, provided `text` holds no
/// escape character (the outside crate rewrites reset sequences inside the
/// text). The outside crate asks its process-wide colour switch once before
/// it writes anything and once more for the opening sequence, so a switch
/// turned off in between leaves `text`, `ESC [ 0 m`.
#[verifier::external_body]
fn red(text: &str) -> (out: String)
    ensures
        painted(text@, Tone::Error, out@),
{
    text.red().to_string()
}

/// Calls `colored::Colorize::cyan` on `text` and formats the result.
///
/// Trusted: the formatted result is `text` unchanged when colouring is off,
/// and otherwise `ESC [ 3 6 m`, `text`, `ESC [ 0 m`, provided `text` holds no
/// escape character (the outside crate rewrites reset sequences inside the
/// text). The outside crate asks its process-wide colour switch once before
/// it writes anything and once more for the opening sequence, so a switch
/// turned off in between leaves `text`, `ESC [ 0 m`.
#[verifier::external_body]
fn cyan(text: &str) -> (out: String)
    ensures
        painted(text@, Tone::Info, out@),
{
    text.cyan().to_string()
}

/// `text` in the colour `tone`, as far as colours are switched on.
pub fn paint(text: &str, tone: Tone) -> (out: String)
    ensures
        painted(text@, tone, out@),
{
    match tone {
        Tone::Error => red(text),
        Tone::Info => cyan(text),
    }
}

} // verus!
