use dirstat::counters::Counters;
use dirstat::paint::{paint, Tone};
use dirstat::report::{report, summary, tint};
use dirstat::text::{decimal, push_decimal};

fn shown(out: &str, text: &str, code: &str) -> bool {
    out == text || out == format!("\x1b[{}m{}\x1b[0m", code, text)
}

#[test]
fn decimal_of_small_and_large_numbers() {
    assert_eq!(decimal(0), "0");
    assert_eq!(decimal(7), "7");
    assert_eq!(decimal(10), "10");
    assert_eq!(decimal(35), "35");
    assert_eq!(decimal(1_000_000), "1000000");
    assert_eq!(decimal(9_876_543_210), "9876543210");
    assert_eq!(decimal(u64::MAX), "18446744073709551615");
}

#[test]
fn decimal_is_appended_to_what_is_there() {
    let mut text = String::from("n = ");
    push_decimal(&mut text, 402);
    assert_eq!(text, "n = 402");
    push_decimal(&mut text, 0);
    assert_eq!(text, "n = 4020");
}

#[test]
fn summary_has_four_lines_in_order() {
    let counters = Counters { files: 3, dirs: 2, bytes: 35 };
    let lines = summary(&counters, "35 B", "1.50ms");
    assert_eq!(
        lines,
        vec![
            String::from("Total size: 35 B"),
            String::from("File count: 3"),
            String::from("Directory count: 2"),
            String::from("Execution time: 1.50ms"),
        ]
    );
}

#[test]
fn summary_of_an_empty_root() {
    let counters = Counters { files: 0, dirs: 1, bytes: 0 };
    let lines = summary(&counters, "", "");
    assert_eq!(lines[0], "Total size: ");
    assert_eq!(lines[1], "File count: 0");
    assert_eq!(lines[2], "Directory count: 1");
    assert_eq!(lines[3], "Execution time: ");
}

#[test]
fn report_of_the_example_tree() {
    let counters = Counters { files: 3, dirs: 2, bytes: 35 };
    let lines = report(&counters, 1_500_000);
    assert_eq!(lines.len(), 4);
    assert!(shown(&lines[0], "Total size: 35 B", "36"));
    assert!(shown(&lines[1], "File count: 3", "36"));
    assert!(shown(&lines[2], "Directory count: 2", "36"));
    assert!(shown(&lines[3], "Execution time: 1.50ms", "36"));
}

#[test]
fn report_uses_binary_units_for_large_sizes() {
    let lines = report(&Counters { files: 1, dirs: 1, bytes: 2048 }, 0);
    assert!(shown(&lines[0], "Total size: 2.0 KiB", "36"));
    assert!(shown(&lines[3], "Execution time: 0.00ns", "36"));
    let lines = report(&Counters { files: 1, dirs: 1, bytes: 1_288_490 }, 1_234_567_890);
    assert!(shown(&lines[0], "Total size: 1.2 MiB", "36"));
    assert!(shown(&lines[3], "Execution time: 1.23s", "36"));
    let lines = report(&Counters { files: 1, dirs: 1, bytes: 1023 }, 2_500);
    assert!(shown(&lines[0], "Total size: 1023 B", "36"));
    assert!(shown(&lines[3], "Execution time: 2.50µs", "36"));
}

#[test]
fn report_counts_are_printed_in_full() {
    let lines = report(&Counters { files: u64::MAX, dirs: 1_000_000, bytes: 0 }, 1);
    assert!(shown(&lines[0], "Total size: 0 B", "36"));
    assert!(shown(&lines[1], "File count: 18446744073709551615", "36"));
    assert!(shown(&lines[2], "Directory count: 1000000", "36"));
    assert!(shown(&lines[3], "Execution time: 1.00ns", "36"));
}

#[test]
fn tint_keeps_the_number_of_lines() {
    let plain = vec![String::from("a"), String::from(""), String::from("b c")];
    let lines = tint(&plain);
    assert_eq!(lines.len(), 3);
    assert!(shown(&lines[0], "a", "36"));
    assert!(shown(&lines[2], "b c", "36"));
    assert!(tint(&Vec::new()).is_empty());
}

#[test]
fn paint_wraps_the_text_when_colours_are_on() {
    colored::control::set_override(true);
    assert_eq!(paint("File count: 3", Tone::Info), "\x1b[36mFile count: 3\x1b[0m");
    assert_eq!(paint("Provided path is not a directory", Tone::Error), "\x1b[31mProvided path is not a directory\x1b[0m");
    assert_eq!(paint("", Tone::Error), "\x1b[31m\x1b[0m");
}

#[test]
fn paint_is_plain_or_coloured() {
    assert!(shown(&paint("hello", Tone::Info), "hello", "36"));
    assert!(shown(&paint("hello", Tone::Error), "hello", "31"));
}
