//! Blank texts, trailing characters, and numbers in decimal.

use tg_ai_companion::text::{join, is_blank, push_decimal, same_text, strip_trailing};

#[test]
fn blank_is_what_trims_to_nothing() {
    for s in ["", " ", "   ", "\t", "\n", "\r\n", "\u{b}\u{c}", "\u{85}", "\u{a0}", "\u{1680}",
        "\u{2000}\u{2001}\u{2002}\u{200a}", "\u{2028}\u{2029}", "\u{202f}\u{205f}\u{3000}"]
    {
        assert!(is_blank(s), "{:?}", s);
        assert!(s.trim().is_empty());
    }
}

#[test]
fn one_visible_character_is_enough() {
    for s in ["a", " a", "a ", "  .  ", "\n0\n", "\u{200b}", "\u{feff}", "\u{0}", "\u{1f600}", "Hello"] {
        assert!(!is_blank(s), "{:?}", s);
        assert!(!s.trim().is_empty());
    }
}

#[test]
fn trailing_characters_are_cut() {
    assert_eq!(strip_trailing("http://x", '/'), "http://x");
    assert_eq!(strip_trailing("http://x/", '/'), "http://x");
    assert_eq!(strip_trailing("http://x//", '/'), "http://x");
    assert_eq!(strip_trailing("/a/b/", '/'), "/a/b");
    assert_eq!(strip_trailing("///", '/'), "");
    assert_eq!(strip_trailing("", '/'), "");
    assert_eq!(strip_trailing("a/ ", '/'), "a/ ");
    assert_eq!(strip_trailing("h\u{e9}\u{e9}", '\u{e9}'), "h");
    assert_eq!(strip_trailing("\u{1f600}/", '/'), "\u{1f600}");
}

#[test]
fn texts_are_joined_in_order() {
    assert_eq!(join("Bearer ", "key"), "Bearer key");
    assert_eq!(join("", ""), "");
    assert_eq!(join("a", ""), "a");
    assert_eq!(join("", "\u{e9}"), "\u{e9}");
}

#[test]
fn texts_are_compared_character_by_character() {
    assert!(same_text("", ""));
    assert!(same_text("abc", "abc"));
    assert!(!same_text("abc", "abd"));
    assert!(!same_text("abc", "ab"));
    assert!(!same_text("abc", "ABC"));
    assert!(!same_text("e\u{301}", "\u{e9}"));
}

#[test]
fn numbers_are_written_in_decimal() {
    for n in [0u16, 1, 9, 10, 11, 99, 100, 101, 200, 400, 999, 1000, 9999, 10000, 65535] {
        let mut out = String::from("x");
        push_decimal(&mut out, n);
        assert_eq!(out, format!("x{}", n));
    }
}
