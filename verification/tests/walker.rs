use dirstat::counters::Counters;
use dirstat::walker::{Found, Shown, Step, Walker};

fn expect_list(step: Step<&'static str>) -> &'static str {
    match step {
        Step::List(dir) => dir,
        other => panic!("expected a directory to list, got {:?}", other),
    }
}

#[test]
fn new_walker_hands_out_the_root_first() {
    let mut walker = Walker::new("/t");
    assert_eq!(expect_list(walker.step()), "/t");
}

#[test]
fn root_alone_is_one_directory() {
    let mut walker = Walker::new("/t");
    expect_list(walker.step());
    match walker.step() {
        Step::Done(counters) => assert_eq!(counters, Counters { files: 0, dirs: 1, bytes: 0 }),
        other => panic!("expected the end, got {:?}", other),
    }
}

#[test]
fn walker_driven_over_the_example_tree() {
    let mut walker = Walker::new("/t");
    assert_eq!(expect_list(walker.step()), "/t");
    walker.record(Found::File { size: Some(10) });
    walker.record(Found::File { size: Some(20) });
    walker.record(Found::Directory("/t/sub"));
    assert_eq!(expect_list(walker.step()), "/t/sub");
    walker.record(Found::File { size: Some(5) });
    match walker.step() {
        Step::Done(counters) => assert_eq!(counters, Counters { files: 3, dirs: 2, bytes: 35 }),
        other => panic!("expected the end, got {:?}", other),
    }
}

#[test]
fn directories_are_counted_when_they_are_visited() {
    let mut walker = Walker::new("/t");
    expect_list(walker.step());
    walker.record(Found::Directory("/t/a"));
    walker.record(Found::Directory("/t/b"));
    // Found last, listed first.
    assert_eq!(expect_list(walker.step()), "/t/b");
    walker.record(Found::Directory("/t/b/c"));
    assert_eq!(expect_list(walker.step()), "/t/b/c");
    assert_eq!(expect_list(walker.step()), "/t/a");
    match walker.step() {
        Step::Done(counters) => assert_eq!(counters, Counters { files: 0, dirs: 4, bytes: 0 }),
        other => panic!("expected the end, got {:?}", other),
    }
}

#[test]
fn file_without_size_adds_no_bytes() {
    let mut walker = Walker::new(0u32);
    walker.step();
    walker.record(Found::File { size: None });
    walker.record(Found::File { size: Some(8) });
    match walker.step() {
        Step::Done(counters) => assert_eq!(counters, Counters { files: 2, dirs: 1, bytes: 8 }),
        other => panic!("expected the end, got {:?}", other),
    }
}

#[test]
fn failed_listing_ends_the_walk_without_counters() {
    let mut walker = Walker::new("/t");
    expect_list(walker.step());
    walker.record(Found::File { size: Some(10) });
    walker.record(Found::Directory("/t/sub"));
    assert_eq!(expect_list(walker.step()), "/t/sub");
    walker.listing_failed();
    assert!(matches!(walker.step(), Step::Failed));
    // Nothing that is reported afterwards revives it, or is shown.
    assert_eq!(walker.record(Found::Directory("/t/other")), Shown::Nothing);
    assert_eq!(walker.record(Found::File { size: Some(4) }), Shown::Nothing);
    assert!(matches!(walker.step(), Step::Failed));
    assert!(matches!(walker.step(), Step::Failed));
}

#[test]
fn done_is_repeated_once_reached() {
    let mut walker = Walker::new(String::from("/t"));
    walker.step();
    walker.record(Found::File { size: Some(1) });
    let first = match walker.step() {
        Step::Done(counters) => counters,
        other => panic!("expected the end, got {:?}", other),
    };
    let second = match walker.step() {
        Step::Done(counters) => counters,
        other => panic!("expected the end, got {:?}", other),
    };
    assert_eq!(first, second);
    assert_eq!(first, Counters { files: 1, dirs: 1, bytes: 1 });
}

#[test]
fn counters_start_at_zero_and_wrap() {
    let mut counters = Counters::new();
    assert_eq!(counters, Counters { files: 0, dirs: 0, bytes: 0 });
    counters.count_directory();
    counters.count_file(Some(u64::MAX));
    counters.count_file(Some(3));
    counters.count_file(None);
    assert_eq!(counters, Counters { files: 3, dirs: 1, bytes: 2 });
    let mut full = Counters { files: u64::MAX, dirs: u64::MAX, bytes: 0 };
    full.count_file(Some(0));
    full.count_directory();
    assert_eq!(full, Counters { files: 0, dirs: 0, bytes: 0 });
}

#[test]
fn record_says_what_a_progress_display_shows() {
    let mut walker = Walker::new("/t");
    expect_list(walker.step());
    assert_eq!(walker.record(Found::File { size: Some(10) }), Shown::SizedFile(10));
    assert_eq!(walker.record(Found::File { size: Some(0) }), Shown::SizedFile(0));
    assert_eq!(walker.record(Found::File { size: None }), Shown::File);
    assert_eq!(walker.record(Found::Directory("/t/sub")), Shown::Nothing);
}
