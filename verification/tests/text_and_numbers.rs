//! Lines, blankness and decimal notation.

use capturebot::decimal::{i32_to_decimal, parse_i64, parse_u64};
use capturebot::text::{
    char_is_whitespace, chars_are_blank, chars_of, first_line_of, matches_at, string_of_range,
};

fn chars(s: &str) -> Vec<char> {
    s.chars().collect()
}

#[test]
fn characters_round_trip() {
    assert_eq!(chars_of("héllo"), vec!['h', 'é', 'l', 'l', 'o']);
    assert_eq!(chars_of(""), Vec::<char>::new());
    assert_eq!(string_of_range(&chars("héllo"), 0, 5), "héllo");
    assert_eq!(string_of_range(&chars("héllo"), 1, 3), "él");
    assert_eq!(string_of_range(&chars("héllo"), 2, 2), "");
}

#[test]
fn whitespace_is_what_the_standard_library_calls_so() {
    for code in 0u32..0x3100 {
        if let Some(c) = char::from_u32(code) {
            assert_eq!(char_is_whitespace(c), c.is_whitespace(), "U+{:04X}", code);
        }
    }
    assert!(!char_is_whitespace('\u{200B}'));
    assert!(!char_is_whitespace('\u{FEFF}'));
}

#[test]
fn blankness() {
    assert!(chars_are_blank(&chars("")));
    assert!(chars_are_blank(&chars("\n")));
    assert!(chars_are_blank(&chars(" \t\r\n")));
    assert!(!chars_are_blank(&chars(" x ")));
}

#[test]
fn first_lines() {
    assert_eq!(first_line_of(&chars("one\ntwo\nthree")), "one");
    assert_eq!(first_line_of(&chars("one")), "one");
    assert_eq!(first_line_of(&chars("one\r\ntwo")), "one");
    assert_eq!(first_line_of(&chars("one\r")), "one\r");
    assert_eq!(first_line_of(&chars("\r\n")), "");
    assert_eq!(first_line_of(&chars("\n")), "");
    assert_eq!(first_line_of(&chars("")), "");
    for text in ["one\ntwo", "a\r\nb", "x\r", "\r\nq", "plain"] {
        assert_eq!(first_line_of(&chars(text)), text.lines().next().unwrap());
    }
}

#[test]
fn matching_at_a_position() {
    assert!(matches_at(&chars("note.org"), 4, &chars(".org")));
    assert!(!matches_at(&chars("note.org"), 5, &chars(".org")));
    assert!(!matches_at(&chars("note.org"), 3, &chars(".org")));
    assert!(matches_at(&chars("note.org"), 8, &chars("")));
}

#[test]
fn decimal_notation() {
    assert_eq!(i32_to_decimal(0), "0");
    assert_eq!(i32_to_decimal(7), "7");
    assert_eq!(i32_to_decimal(1001), "1001");
    assert_eq!(i32_to_decimal(-5), "-5");
    assert_eq!(i32_to_decimal(i32::MAX), "2147483647");
    assert_eq!(i32_to_decimal(i32::MIN), "-2147483648");
    for n in [-100, -10, -9, 9, 10, 99, 100, 12345] {
        assert_eq!(i32_to_decimal(n), n.to_string());
    }
}

#[test]
fn reading_unsigned_numerals() {
    assert_eq!(parse_u64("0"), Some(0));
    assert_eq!(parse_u64("12345"), Some(12345));
    assert_eq!(parse_u64("+7"), Some(7));
    assert_eq!(parse_u64("007"), Some(7));
    assert_eq!(parse_u64("18446744073709551615"), Some(u64::MAX));
    assert_eq!(parse_u64("18446744073709551616"), None);
    assert_eq!(parse_u64("99999999999999999999999"), None);
    assert_eq!(parse_u64(""), None);
    assert_eq!(parse_u64("+"), None);
    assert_eq!(parse_u64("-1"), None);
    assert_eq!(parse_u64("12a"), None);
    assert_eq!(parse_u64(" 12"), None);
    assert_eq!(parse_u64("++1"), None);
    for s in ["0", "+0", "42", "0042", "x", "4 2", "", "+", "18446744073709551615"] {
        assert_eq!(parse_u64(s), s.parse::<u64>().ok(), "{:?}", s);
    }
}

#[test]
fn reading_signed_numerals() {
    assert_eq!(parse_i64("0"), Some(0));
    assert_eq!(parse_i64("-0"), Some(0));
    assert_eq!(parse_i64("1700000000"), Some(1_700_000_000));
    assert_eq!(parse_i64("-1700000000"), Some(-1_700_000_000));
    assert_eq!(parse_i64("+5"), Some(5));
    assert_eq!(parse_i64("9223372036854775807"), Some(i64::MAX));
    assert_eq!(parse_i64("9223372036854775808"), None);
    assert_eq!(parse_i64("-9223372036854775808"), Some(i64::MIN));
    assert_eq!(parse_i64("-9223372036854775809"), None);
    assert_eq!(parse_i64("-"), None);
    assert_eq!(parse_i64("-+1"), None);
    assert_eq!(parse_i64("+-1"), None);
    assert_eq!(parse_i64(""), None);
    assert_eq!(parse_i64("1.5"), None);
    for s in ["-1", "+1", "--1", "-", "12", "-007", "99999999999999999999"] {
        assert_eq!(parse_i64(s), s.parse::<i64>().ok(), "{:?}", s);
    }
}
