use simdriver::config::{parse_u64, str_eq};

#[test]
fn parse_plain_decimals() {
    assert_eq!(parse_u64("0"), Some(0));
    assert_eq!(parse_u64("123"), Some(123));
    assert_eq!(parse_u64("007"), Some(7));
    assert_eq!(parse_u64("18446744073709551615"), Some(u64::MAX));
}

#[test]
fn parse_rejects_non_numerals() {
    assert_eq!(parse_u64(""), None);
    assert_eq!(parse_u64("12a"), None);
    assert_eq!(parse_u64("-3"), None);
    assert_eq!(parse_u64("+3"), None);
    assert_eq!(parse_u64(" 3"), None);
    assert_eq!(parse_u64("3.5"), None);
}

#[test]
fn parse_rejects_overflow() {
    assert_eq!(parse_u64("18446744073709551616"), None);
    assert_eq!(parse_u64("99999999999999999999999"), None);
}

#[test]
fn string_equality() {
    assert!(str_eq("mock", "mock"));
    assert!(!str_eq("mock", "mocks"));
    assert!(!str_eq("mock", "Mock"));
    assert!(str_eq("", ""));
    assert!(!str_eq("", "x"));
}
