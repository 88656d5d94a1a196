//! Text helpers held against the standard library.

use bx402::http::{sendable, Headers};
use bx402::text::{decimal_text, lower, same_text, split, trim, white_space};

#[test]
fn white_space_is_what_unicode_says() {
    for c in '\0'..=char::MAX {
        assert_eq!(white_space(c), c.is_whitespace(), "character: {c:?}");
    }
}

#[test]
fn trimming_and_splitting_go_by_characters() {
    for text in ["", " ", " a b ", "\u{2003}é\u{85}", "no", "\t\n"] {
        assert_eq!(trim(text), text.trim());
    }
    for text in ["", ",", "a,b", "a,,b,", "é,ß"] {
        let expected: Vec<&str> = text.split(',').collect();
        assert_eq!(split(text, ','), expected);
    }
}

#[test]
fn only_ascii_capitals_are_made_small() {
    assert_eq!(lower("AbZ[@É0x"), "abz[@É0x");
    assert!(same_text("é", "é"));
    assert!(!same_text("e", "é"));
    assert!(!same_text("ab", "abc"));
}

#[test]
fn numbers_are_written_in_decimal() {
    for n in [0, 7, 10, 500, 5000, 42431, u64::MAX] {
        assert_eq!(decimal_text(n), n.to_string());
    }
}

#[test]
fn headers_are_found_whatever_their_case() {
    let mut headers = Headers::new();
    headers.append("X-One", "1");
    headers.append("x-one", "2");
    headers.append("x-two", "3");
    assert_eq!(headers.text("x-ONE").as_deref(), Some("1"));
    headers.insert("X-ONE", b"4".to_vec());
    assert_eq!(headers.text("x-one").as_deref(), Some("4"));
    assert_eq!(headers.entries.len(), 2);
    assert_eq!(headers.text("x-two").as_deref(), Some("3"));
    assert!(!headers.contains_key("x-three"));
    headers.insert("umlaut", "ü".as_bytes().to_vec());
    assert_eq!(headers.text("umlaut").as_deref(), Some("ü"));
    headers.insert("binary", vec![200]);
    assert_eq!(headers.text("binary"), None);
    assert_eq!(headers.get("binary"), Some(&vec![200]));
}

#[test]
fn control_characters_cannot_be_sent() {
    assert!(sendable("Payment realm=\"bx402\"\t\u{e9}"));
    assert!(sendable(""));
    for text in ["a\nb", "a\rb", "\0", "\u{7f}"] {
        assert!(!sendable(text));
    }
}
