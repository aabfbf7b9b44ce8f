use pwnotify::text::{join_strings, parse_u32, str_eq, u32_to_string, u64_to_string};

#[test]
fn renders_zero() {
    assert_eq!(u32_to_string(0), "0");
}

#[test]
fn renders_single_digit() {
    assert_eq!(u32_to_string(7), "7");
}

#[test]
fn renders_round_number() {
    assert_eq!(u32_to_string(1000), "1000");
}

#[test]
fn renders_max_u32() {
    assert_eq!(u32_to_string(u32::MAX), "4294967295");
}

#[test]
fn renders_u64_values() {
    assert_eq!(u64_to_string(0), "0");
    assert_eq!(u64_to_string(18446744073709551615), "18446744073709551615");
}

#[test]
fn parses_plain_number() {
    assert_eq!(parse_u32("123"), Some(123));
}

#[test]
fn parses_with_plus_sign() {
    assert_eq!(parse_u32("+123"), Some(123));
}

#[test]
fn parses_leading_zeros() {
    assert_eq!(parse_u32("007"), Some(7));
}

#[test]
fn parses_max_u32() {
    assert_eq!(parse_u32("4294967295"), Some(u32::MAX));
}

#[test]
fn rejects_overflow() {
    assert_eq!(parse_u32("4294967296"), None);
    assert_eq!(parse_u32("99999999999999999999"), None);
}

#[test]
fn rejects_empty_and_bare_sign() {
    assert_eq!(parse_u32(""), None);
    assert_eq!(parse_u32("+"), None);
}

#[test]
fn rejects_non_digits() {
    assert_eq!(parse_u32("12a"), None);
    assert_eq!(parse_u32("-5"), None);
    assert_eq!(parse_u32(" 5"), None);
    assert_eq!(parse_u32("1 2"), None);
}

#[test]
fn compares_strings_by_characters() {
    assert!(str_eq("Audio/Sink", "Audio/Sink"));
    assert!(!str_eq("Audio/Sink", "Audio/Source"));
    assert!(!str_eq("Audio/Sink", "Audio/Sink "));
    assert!(str_eq("", ""));
}

#[test]
fn joins_strings_with_separator() {
    let parts: Vec<String> = vec!["a".to_string(), "b".to_string(), "c".to_string()];
    assert_eq!(join_strings(&parts, ", "), "a, b, c");
    let one: Vec<String> = vec!["solo".to_string()];
    assert_eq!(join_strings(&one, " | "), "solo");
    let none: Vec<String> = Vec::new();
    assert_eq!(join_strings(&none, " | "), "");
}
