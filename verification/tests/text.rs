use clndir::text::contains_substring;

#[test]
fn finds_inner_substring() {
    assert!(contains_substring("hello world", "lo wo"));
    assert!(contains_substring("hello world", "hello"));
    assert!(contains_substring("hello world", "world"));
}

#[test]
fn rejects_absent_substring() {
    assert!(!contains_substring("hello world", "worlds"));
    assert!(!contains_substring("abc", "abcd"));
    assert!(!contains_substring("", "a"));
}

#[test]
fn empty_needle_is_everywhere() {
    assert!(contains_substring("abc", ""));
    assert!(contains_substring("", ""));
}

#[test]
fn multibyte_characters_are_matched_by_character() {
    assert!(contains_substring("naïve café", "ïve"));
    assert!(!contains_substring("naïve café", "naive"));
}
