use alarmate::{contains, parse_u64, strip_tabs, LOGIN_PATH};

#[test]
fn strip_tabs_removes_every_tab() {
    assert_eq!(strip_tabs("\ta\tb\t\tc\t"), "abc");
    assert_eq!(strip_tabs(""), "");
    assert_eq!(strip_tabs("\t\t"), "");
    assert_eq!(strip_tabs("no tabs here"), "no tabs here");
    assert_eq!(strip_tabs("ü\tß"), "üß");
}

#[test]
fn contains_finds_runs() {
    assert!(contains("<a href=\"/action/login\">", LOGIN_PATH));
    assert!(!contains("/action/logi", LOGIN_PATH));
    assert!(!contains("/action\t/login", LOGIN_PATH));
    assert!(contains("abc", ""));
    assert!(contains("abc", "abc"));
    assert!(!contains("", "a"));
    assert!(contains("aab", "ab"));
}

#[test]
fn parse_u64_reads_decimal() {
    assert_eq!(parse_u64("0"), Some(0));
    assert_eq!(parse_u64("42"), Some(42));
    assert_eq!(parse_u64("+7"), Some(7));
    assert_eq!(parse_u64("18446744073709551615"), Some(u64::MAX));
    assert_eq!(parse_u64("18446744073709551616"), None);
    assert_eq!(parse_u64(""), None);
    assert_eq!(parse_u64("+"), None);
    assert_eq!(parse_u64("-1"), None);
    assert_eq!(parse_u64("1a"), None);
    assert_eq!(parse_u64(" 1"), None);
}

