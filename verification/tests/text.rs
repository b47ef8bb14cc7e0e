//! Text as the library reads and writes it.

use orbitrelay::text::{
    chars_of, contains_char, contains_string, decimal_text, find, has_prefix, parse_signed,
    parse_unsigned, same_text, split, split_white_space, string_of, to_lower, trim, white_space,
};
use orbitrelay::text_set::TextSet;

fn texts(parts: &[Vec<char>]) -> Vec<String> {
    parts.iter().map(|part| string_of(part)).collect()
}

#[test]
fn pieces_are_found_and_split() {
    let text = chars_of("a--b-c--");
    assert_eq!(find(&text, &chars_of("--")), Some(1));
    assert_eq!(find(&text, &chars_of("c-")), Some(5));
    assert_eq!(find(&text, &chars_of("x")), None);
    assert_eq!(texts(&split(&text, &chars_of("--"))), ["a", "b-c", ""]);
    assert_eq!(texts(&split_white_space(&chars_of("  GET\t/x  HTTP "))), ["GET", "/x", "HTTP"]);
    assert_eq!(string_of(&trim(&chars_of(" \u{2003}a b\n"))), "a b");
    assert!(contains_char(&text, 'c'));
    assert!(!contains_char(&text, 'd'));
    assert!(has_prefix(&text, &chars_of("a-")));
    assert!(!has_prefix(&text, &chars_of("-")));
    assert!(same_text("\u{e9}", "\u{e9}"));
    assert!(!same_text("a", "A"));
    assert_eq!(string_of(&to_lower(&chars_of("AbC-\u{c9}"))), "abc-\u{c9}");
}

#[test]
fn numbers_are_read_and_written() {
    let unsigned = |text: &str, max: u64| parse_unsigned(&chars_of(text), max);
    assert_eq!(unsigned("+0042", u64::MAX), Some(42));
    assert_eq!(unsigned("18446744073709551615", u64::MAX), Some(u64::MAX));
    assert_eq!(unsigned("18446744073709551616", u64::MAX), None);
    assert_eq!(unsigned("256", 255), None);
    assert_eq!(unsigned("", 9), None);
    assert_eq!(unsigned("+", 9), None);
    assert_eq!(unsigned("-1", 9), None);
    let signed = |text: &str| parse_signed(&chars_of(text));
    assert_eq!(signed("-9223372036854775808"), Some(i64::MIN));
    assert_eq!(signed("9223372036854775808"), None);
    assert_eq!(signed("-0"), Some(0));
    assert_eq!(signed("--1"), None);
    for number in [0, 7, 10, 1_000_000, u64::MAX] {
        let text = decimal_text(number);
        assert_eq!(text, format!("{number}"));
        assert_eq!(unsigned(&text, u64::MAX), Some(number));
    }
}

#[test]
fn sets_hold_each_text_once() {
    let set = TextSet::new().insert("a".to_owned()).insert("b".to_owned()).insert("a".to_owned());
    assert_eq!(set.len(), 2);
    assert!(set.contains("b"));
    assert!(!set.contains("c"));
    assert!(contains_string(set.items(), "a"));
    assert!(set.same(&TextSet::new().insert("b".to_owned()).insert("a".to_owned())));
    assert!(!set.same(&TextSet::new().insert("b".to_owned())));
}

#[test]
fn characters_are_classed_as_unicode_classes_them() {
    for value in 0..=0x10ffff {
        if let Some(c) = char::from_u32(value) {
            assert_eq!(white_space(c), c.is_whitespace(), "U+{value:04X}");
            assert_eq!(to_lower(&[c]), vec![c.to_ascii_lowercase()], "U+{value:04X}");
        }
    }
}
