use raps_demo_workflows::text::{
    blank, concat2, concat3, contains, decimal_string, from_chars, join, same_text,
    signed_decimal_string, to_chars,
};
use raps_demo_workflows::text_map::TextMap;

#[test]
fn substrings_are_found() {
    assert!(contains("hello world", "o w"));
    assert!(contains("hello", "hello"));
    assert!(contains("hello", ""));
    assert!(contains("", ""));
    assert!(!contains("", "a"));
    assert!(!contains("hello", "hello!"));
    assert!(!contains("abcabd", "abe"));
    assert!(contains("abcabd", "abd"));
    assert!(contains("naïve café", "é"));
}

#[test]
fn numbers_are_written_in_decimal() {
    assert_eq!(decimal_string(0), "0");
    assert_eq!(decimal_string(7), "7");
    assert_eq!(decimal_string(10), "10");
    assert_eq!(decimal_string(u64::MAX), "18446744073709551615");
    assert_eq!(signed_decimal_string(0), "0");
    assert_eq!(signed_decimal_string(-1), "-1");
    assert_eq!(signed_decimal_string(i64::MAX), "9223372036854775807");
    assert_eq!(signed_decimal_string(i64::MIN), "-9223372036854775808");
}

#[test]
fn blank_texts_hold_white_space_only() {
    assert!(blank(""));
    assert!(blank(" \t\r\n"));
    assert!(blank("\u{a0}\u{2003}\u{3000}\u{85}\u{1680}\u{2028}\u{2029}\u{202f}\u{205f}"));
    assert!(!blank(" a "));
    assert!(!blank("\u{200b}"));
    for c in ['\u{8}', '\u{e}', '\u{1f}', '!', '\u{84}', '\u{86}', '\u{180e}', '\u{200b}', '\u{feff}'] {
        assert_eq!(blank(&c.to_string()), c.is_whitespace());
    }
}

#[test]
fn texts_are_joined_and_compared() {
    assert_eq!(join(&vec![], ", "), "");
    assert_eq!(join(&vec!["a".to_string()], ", "), "a");
    assert_eq!(join(&vec!["a".to_string(), "".to_string(), "c".to_string()], ", "), "a, , c");
    assert_eq!(concat2("a", "b"), "ab");
    assert_eq!(concat3("a", "", "c"), "ac");
    assert!(same_text("x", "x"));
    assert!(!same_text("x", "X"));
    assert_eq!(from_chars(&to_chars("héllo")), "héllo");
    assert_eq!(to_chars("ab"), vec!['a', 'b']);
}

#[test]
fn a_text_map_keeps_one_value_per_key() {
    let mut m: TextMap<u32> = TextMap::new();
    assert!(m.is_empty());
    m.insert("a".to_string(), 1);
    m.insert("b".to_string(), 2);
    m.insert("a".to_string(), 3);
    assert_eq!(m.len(), 2);
    assert_eq!(m.get("a"), Some(&3));
    assert_eq!(m.get("b"), Some(&2));
    assert_eq!(m.get("c"), None);
    assert!(m.contains_key("b"));
    assert_eq!(m.key_at(0), "a");
    assert_eq!(m.value_at(1), &2);
    let copy = m.duplicate();
    m.remove("a");
    m.remove("zzz");
    assert_eq!(m.len(), 1);
    assert_eq!(m.key_at(0), "b");
    assert_eq!(copy.len(), 2);
    assert_eq!(copy.get("a"), Some(&3));
    let cloned = copy.clone();
    assert_eq!(cloned.get("b"), Some(&2));
}
