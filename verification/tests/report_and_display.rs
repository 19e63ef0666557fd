use clndir::display::display_line;
use clndir::report::count_successes;
use clndir::report::deletion_report;
use clndir::text::format_u64;
use clndir::FileWithModifiedTime;

#[test]
fn count_excludes_the_failed_file() {
    let results = vec![true, false, true];
    assert_eq!(count_successes(&results), 2);
}

#[test]
fn count_of_all_successes_is_the_batch_size() {
    let results = vec![true, true, true, true];
    assert_eq!(count_successes(&results), 4);
}

#[test]
fn count_of_empty_batch_is_zero() {
    let results: Vec<bool> = vec![];
    assert_eq!(count_successes(&results), 0);
}

#[test]
fn report_line_shows_the_count() {
    assert_eq!(deletion_report(2), "2 File(s) deleted");
    assert_eq!(deletion_report(0), "0 File(s) deleted");
    assert_eq!(deletion_report(17), "17 File(s) deleted");
}

#[test]
fn decimal_formatting_is_exact() {
    assert_eq!(format_u64(0), "0");
    assert_eq!(format_u64(9), "9");
    assert_eq!(format_u64(10), "10");
    assert_eq!(format_u64(600), "600");
    assert_eq!(format_u64(18446744073709551615), "18446744073709551615");
}

#[test]
fn display_line_shows_epoch_date() {
    let file = FileWithModifiedTime {
        name: String::from("foo.txt"),
        modified_secs: 0,
    };
    assert_eq!(display_line(&file), "Last Modified 1970-01-01 - foo.txt ");
}

#[test]
fn display_line_shows_recent_date() {
    let file = FileWithModifiedTime {
        name: String::from("bar.log"),
        modified_secs: 1_000_000_000,
    };
    assert_eq!(display_line(&file), "Last Modified 2001-09-09 - bar.log ");
}
