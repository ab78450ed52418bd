//! The four lines that are printed after a successful traversal.

use vstd::prelude::*;
use bytesize::ByteSize;
use core::time::Duration;
use crate::counters::Counters;
use crate::paint::{paint, painted, Tone};
use crate::text::{decimal_text, push_decimal};

verus! {

/// The human-readable text of a size of `bytes` bytes: the number in a
/// binary unit and the unit's name, such as `1.2 MiB`.
pub uninterp spec fn byte_size_text(bytes: u64) -> Seq<char>;

/// The text of a time span of `nanos` nanoseconds: a number with two
/// fractional digits and a unit.
pub uninterp spec fn duration_text(nanos: u64) -> Seq<char>;

/// Formats `bytesize::ByteSize(bytes)` with its `Display` impl.
///
/// Trusted: the text depends on `bytes` alone, and below 1024 bytes it is the
/// decimal number, a space and the letter `B`.
#[verifier::external_body]
fn human_size(bytes: u64) -> (out: String)
    ensures
        out@ == byte_size_text(bytes),
        bytes < 1024 ==> out@ == decimal_text(bytes as nat) + seq![' ', 'B'],
{
    ByteSize(bytes).to_string()
}

/// Formats a `core::time::Duration` of `nanos` nanoseconds with its `Debug`
/// impl at precision 2.
///
/// Trusted: the text depends on `nanos` alone.
#[verifier::external_body]
fn human_duration(nanos: u64) -> (out: String)
    ensures
        out@ == duration_text(nanos),
{
    format!("{:.2?}", Duration::from_nanos(nanos))
}

/// The lines of the report, uncoloured, given the text of the size and the
/// text of the elapsed time.
pub open spec fn summary_text(
    counters: Counters,
    size: Seq<char>,
    elapsed: Seq<char>,
) -> Seq<Seq<char>> {
    seq![
        "Total size: "@ + size,
        "File count: "@ + decimal_text(counters.files as nat),
        "Directory count: "@ + decimal_text(counters.dirs as nat),
        "Execution time: "@ + elapsed,
    ]
}

/// Builds the uncoloured lines of the report: total size, file count,
/// directory count and execution time, in this order.
pub fn summary(counters: &Counters, size: &str, elapsed: &str) -> (lines: Vec<String>)
    ensures
        lines@.len() == 4,
        forall|i: int|
            0 <= i < 4 ==> (#[trigger] lines@[i])@ == summary_text(*counters, size@, elapsed@)[i],
{
    let mut first = String::from_str("Total size: ");
    first.append(size);
    let mut second = String::from_str("File count: ");
    push_decimal(&mut second, counters.files);
    let mut third = String::from_str("Directory count: ");
    push_decimal(&mut third, counters.dirs);
    let mut fourth = String::from_str("Execution time: ");
    fourth.append(elapsed);
    let mut lines: Vec<String> = Vec::new();
    lines.push(first);
    lines.push(second);
    lines.push(third);
    lines.push(fourth);
    lines
}

/// Colours each line of a report.
pub fn tint(plain: &Vec<String>) -> (lines: Vec<String>)
    ensures
        lines@.len() == plain@.len(),
        forall|i: int| 0 <= i < plain@.len() ==> painted(plain@[i]@, Tone::Info, #[trigger] lines@[i]@),
{
    let mut lines: Vec<String> = Vec::new();
    let mut i: usize = 0;
    while i < plain.len()
        invariant
            i <= plain@.len(),
            lines@.len() == i,
            forall|j: int| 0 <= j < i ==> painted(plain@[j]@, Tone::Info, #[trigger] lines@[j]@),
        decreases plain@.len() - i,
    {
        lines.push(paint(plain[i].as_str(), Tone::Info));
        i += 1;
    }
    lines
}

/// The report for `counters` after `elapsed_nanos` nanoseconds: the four
/// lines of [`summary_text`], each in the report's colour. A size below
/// 1024 bytes is given as the plain number of bytes.
pub fn report(counters: &Counters, elapsed_nanos: u64) -> (lines: Vec<String>)
    ensures
        lines@.len() == 4,
        counters.bytes < 1024 ==> painted(
            "Total size: "@ + (decimal_text(counters.bytes as nat) + seq![' ', 'B']),
            Tone::Info,
            lines@[0]@,
        ),
        forall|i: int|
            0 <= i < 4 ==> painted(
                summary_text(
                    *counters,
                    byte_size_text(counters.bytes),
                    duration_text(elapsed_nanos),
                )[i],
                Tone::Info,
                #[trigger] lines@[i]@,
            ),
{
    let size = human_size(counters.bytes);
    let elapsed = human_duration(elapsed_nanos);
    let plain = summary(counters, size.as_str(), elapsed.as_str());
    tint(&plain)
}

} // verus!
