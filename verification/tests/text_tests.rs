use grm::text::{contains_str, decimal_string, ends_with_str, pad_right_string, str_equal, dashes};

#[test]
fn decimal_notation() {
    assert_eq!(decimal_string(0), "0");
    assert_eq!(decimal_string(7), "7");
    assert_eq!(decimal_string(10), "10");
    assert_eq!(decimal_string(1234567890), "1234567890");
    assert_eq!(decimal_string(usize::MAX), usize::MAX.to_string());
}

#[test]
fn substring_search() {
    assert!(contains_str("tool-linux-x86_64.tar.gz", "linux"));
    assert!(!contains_str("tool-windows.zip", "linux"));
    assert!(contains_str("abc", ""));
    assert!(!contains_str("ab", "abc"));
    assert!(contains_str("aab", "ab"));
    assert!(contains_str("é-ü", "-ü"));
}

#[test]
fn suffixes_and_equality() {
    assert!(ends_with_str("release.tgz", ".tgz"));
    assert!(!ends_with_str("release.tgz.sig", ".tgz"));
    assert!(!ends_with_str("gz", ".tgz"));
    assert!(str_equal("zip", "zip"));
    assert!(!str_equal("zip", "zipp"));
}

#[test]
fn padding() {
    assert_eq!(pad_right_string("ab", 5), "ab   ");
    assert_eq!(pad_right_string("abcdef", 3), "abcdef");
    assert_eq!(pad_right_string("", 0), "");
    assert_eq!(dashes(3), "---");
}
