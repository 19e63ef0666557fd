use clndir::eligibility::is_file_ok_to_delete;
use clndir::eligibility::select_candidates;
use clndir::FileWithModifiedTime;
use clndir::SECS_IN_A_DAY;

fn file_aged(name: &str, days_old: u64, now_secs: u64) -> FileWithModifiedTime {
    FileWithModifiedTime {
        name: String::from(name),
        modified_secs: now_secs - days_old * SECS_IN_A_DAY,
    }
}

#[test]
fn young_file_not_eligible_regardless_of_patterns() {
    let now = 2000 * SECS_IN_A_DAY;
    let file = file_aged("old-notes.txt", 10, now);
    let no_patterns: Vec<String> = vec![];
    let patterns = vec![String::from("zip"), String::from("tar")];
    assert!(!is_file_ok_to_delete(&file, now, 600, &no_patterns));
    assert!(!is_file_ok_to_delete(&file, now, 600, &patterns));
}

#[test]
fn age_exactly_threshold_qualifies() {
    let now = 2000 * SECS_IN_A_DAY;
    let file = file_aged("a.bin", 600, now);
    let no_patterns: Vec<String> = vec![];
    assert!(is_file_ok_to_delete(&file, now, 600, &no_patterns));
}

#[test]
fn one_second_short_of_threshold_does_not_qualify() {
    let now = 2000 * SECS_IN_A_DAY;
    let mut file = file_aged("a.bin", 600, now);
    file.modified_secs += 1;
    let no_patterns: Vec<String> = vec![];
    assert!(!is_file_ok_to_delete(&file, now, 600, &no_patterns));
}

#[test]
fn old_file_with_empty_patterns_is_eligible() {
    let now = 2000 * SECS_IN_A_DAY;
    let file = file_aged("backup.tar", 700, now);
    let no_patterns: Vec<String> = vec![];
    assert!(is_file_ok_to_delete(&file, now, 600, &no_patterns));
}

#[test]
fn modified_time_in_the_future_is_not_eligible() {
    let now = 2000 * SECS_IN_A_DAY;
    let file = FileWithModifiedTime {
        name: String::from("from-tomorrow.txt"),
        modified_secs: now + 1,
    };
    let no_patterns: Vec<String> = vec![];
    assert!(!is_file_ok_to_delete(&file, now, 600, &no_patterns));
}

#[test]
fn skip_pattern_blocks_case_insensitively() {
    let now = 2000 * SECS_IN_A_DAY;
    let file = file_aged("Annual-Report.PDF", 700, now);
    let lower_pattern = vec![String::from("pdf")];
    let upper_pattern = vec![String::from("REPORT")];
    assert!(!is_file_ok_to_delete(&file, now, 600, &lower_pattern));
    assert!(!is_file_ok_to_delete(&file, now, 600, &upper_pattern));
}

#[test]
fn skip_pattern_not_in_name_allows_deletion() {
    let now = 2000 * SECS_IN_A_DAY;
    let file = file_aged("notes.txt", 700, now);
    let patterns = vec![String::from("zip"), String::from("pdf")];
    assert!(is_file_ok_to_delete(&file, now, 600, &patterns));
}

#[test]
fn only_second_of_many_patterns_blocks() {
    let now = 2000 * SECS_IN_A_DAY;
    let file = file_aged("movie.mkv", 700, now);
    let patterns = vec![String::from("iso"), String::from("MKV")];
    assert!(!is_file_ok_to_delete(&file, now, 600, &patterns));
}

#[test]
fn select_candidates_keeps_old_files_in_order() {
    let now = 2000 * SECS_IN_A_DAY;
    let files = vec![
        file_aged("fresh.txt", 10, now),
        file_aged("stale.log", 700, now),
        file_aged("ancient.dat", 900, now),
    ];
    let no_patterns: Vec<String> = vec![];
    let picked = select_candidates(files, now, 600, &no_patterns);
    assert_eq!(picked.len(), 2);
    assert_eq!(picked[0].name, "stale.log");
    assert_eq!(picked[1].name, "ancient.dat");
}

#[test]
fn select_candidates_empty_input_selects_nothing() {
    let files: Vec<FileWithModifiedTime> = vec![];
    let no_patterns: Vec<String> = vec![];
    let picked = select_candidates(files, 2000 * SECS_IN_A_DAY, 600, &no_patterns);
    assert!(picked.is_empty());
}
