use max_payne_bot::text::{parse_i64, remove_char, same_text};

#[test]
fn parse_i64_reads_plain_digits() {
    assert_eq!(parse_i64("0"), Some(0));
    assert_eq!(parse_i64("42"), Some(42));
    assert_eq!(parse_i64("0007"), Some(7));
    assert_eq!(parse_i64("1570000000000000001"), Some(1_570_000_000_000_000_001));
}

#[test]
fn parse_i64_reads_a_sign() {
    assert_eq!(parse_i64("+5"), Some(5));
    assert_eq!(parse_i64("-5"), Some(-5));
    assert_eq!(parse_i64("-0"), Some(0));
}

#[test]
fn parse_i64_reaches_both_ends_of_the_range() {
    assert_eq!(parse_i64("9223372036854775807"), Some(i64::MAX));
    assert_eq!(parse_i64("-9223372036854775808"), Some(i64::MIN));
}

#[test]
fn parse_i64_refuses_what_does_not_fit() {
    assert_eq!(parse_i64("9223372036854775808"), None);
    assert_eq!(parse_i64("-9223372036854775809"), None);
    assert_eq!(parse_i64("99999999999999999999999999999999"), None);
}

#[test]
fn parse_i64_refuses_what_is_no_number() {
    assert_eq!(parse_i64(""), None);
    assert_eq!(parse_i64("-"), None);
    assert_eq!(parse_i64("+"), None);
    assert_eq!(parse_i64("--1"), None);
    assert_eq!(parse_i64("12a"), None);
    assert_eq!(parse_i64(" 1"), None);
    assert_eq!(parse_i64("1 "), None);
    assert_eq!(parse_i64("null"), None);
    assert_eq!(parse_i64("4.2"), None);
    assert_eq!(parse_i64("\u{0663}"), None);
}

#[test]
fn parse_i64_agrees_with_the_standard_parser() {
    let samples = vec![
        "", "0", "-", "+", "+0", "-0", "1", "-1", "+1", "10", "007", "123456789",
        "9223372036854775807", "9223372036854775808", "-9223372036854775808",
        "-9223372036854775809", "1e3", "0x10", "1_000", "12 ", " 12", "١٢", "9a", "a9",
        "+-1", "18446744073709551616",
    ];
    for sample in samples {
        assert_eq!(parse_i64(sample), sample.parse::<i64>().ok(), "on {:?}", sample);
    }
}

#[test]
fn remove_char_leaves_out_every_occurrence() {
    assert_eq!(remove_char("\"42\"", '"'), "42");
    assert_eq!(remove_char("a\\b\\\\c", '\\'), "abc");
    assert_eq!(remove_char("", 'x'), "");
    assert_eq!(remove_char("xxx", 'x'), "");
    assert_eq!(remove_char("héllo wörld", 'l'), "héo wörd");
}

#[test]
fn remove_char_keeps_a_text_without_the_character() {
    assert_eq!(remove_char("Bad Request", '"'), "Bad Request");
}

#[test]
fn same_text_compares_letter_for_letter() {
    assert!(same_text("TRUE", "TRUE"));
    assert!(!same_text("TRUE", "true"));
    assert!(!same_text("TRUE", "TRUE "));
    assert!(!same_text("", "TRUE"));
    assert!(same_text("", ""));
}
