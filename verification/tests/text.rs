use dir_server::text::{contains, eq_ignore_ascii_case, replace_all};

#[test]
fn replace_all_takes_occurrences_from_the_left() {
    assert_eq!(replace_all("a//b///c", "//", "/"), "a/b//c");
    assert_eq!(replace_all("", "//", "/"), "");
    assert_eq!(replace_all("abc", "", "x"), "abc");
    assert_eq!(replace_all("{0} and {0}", "{0}", "x{0}"), "x{0} and x{0}");
}

#[test]
fn contains_finds_a_pattern_anywhere() {
    assert!(contains("address in use: port 8000", "port"));
    assert!(contains("port", "port"));
    assert!(!contains("por", "port"));
    assert!(!contains("permission denied", "port"));
    assert!(contains("anything", ""));
}

#[test]
fn letters_compare_without_case() {
    assert!(eq_ignore_ascii_case("Content-Type", "content-type"));
    assert!(eq_ignore_ascii_case("CONTENT-TYPE", "Content-Type"));
    assert!(!eq_ignore_ascii_case("Content-Type", "Content-Typ"));
    assert!(!eq_ignore_ascii_case("Content-Type", "Content_Type"));
}
