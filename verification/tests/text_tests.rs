use swapbytes::text::{
    chars_of, decimal_text, is_space_char, join_from, split_words,
    starts_with, strip_prefix_repeated, text_of, trim_text,
};

#[test]
fn words_split_on_any_whitespace() {
    let w = split_words("  /dm\tBob  hi\u{3000}there \n");
    assert_eq!(w, vec!["/dm", "Bob", "hi", "there"]);
}

#[test]
fn words_of_blank_line_are_none() {
    assert!(split_words("").is_empty());
    assert!(split_words(" \t\r\n\u{a0}").is_empty());
}

#[test]
fn words_match_std_split_whitespace() {
    let samples = ["a b", "\u{2003}x\u{85}y\u{2029}", "one", "  lead", "trail  ", "é  ü"];
    for s in samples {
        let expect: Vec<String> = s.split_whitespace().map(|w| w.to_string()).collect();
        assert_eq!(split_words(s), expect);
    }
}

#[test]
fn whitespace_chars_match_std() {
    for u in 0u32..0x3100 {
        if let Some(c) = char::from_u32(u) {
            assert_eq!(is_space_char(c), c.is_whitespace(), "char {:#x}", u);
        }
    }
}

#[test]
fn trim_removes_surrounding_whitespace_only() {
    assert_eq!(trim_text("  Alice Smith \n"), "Alice Smith");
    assert_eq!(trim_text("Bob"), "Bob");
    assert_eq!(trim_text("   "), "");
    assert_eq!(trim_text(""), "");
}

#[test]
fn join_uses_single_spaces() {
    let w = split_words("/chat hello   big\tworld");
    assert_eq!(join_from(&w, 1), "hello big world");
    assert_eq!(join_from(&w, 3), "world");
    assert_eq!(join_from(&w, 4), "");
}

#[test]
fn strip_removes_every_leading_repetition() {
    assert_eq!(strip_prefix_repeated("JOIN Bob", "JOIN "), "Bob");
    assert_eq!(strip_prefix_repeated("JOIN JOIN Bob", "JOIN "), "Bob");
    assert_eq!(strip_prefix_repeated("Bob JOIN ", "JOIN "), "Bob JOIN ");
    assert_eq!(strip_prefix_repeated("abc", ""), "abc");
    assert_eq!(strip_prefix_repeated("JOIN ", "JOIN "), "");
}

#[test]
fn prefix_test() {
    assert!(starts_with("[SYSTEM]: x", "[SYSTEM]"));
    assert!(!starts_with("[SYS", "[SYSTEM]"));
    assert!(starts_with("abc", ""));
}

#[test]
fn decimal_numerals() {
    assert_eq!(decimal_text(0), "0");
    assert_eq!(decimal_text(7), "7");
    assert_eq!(decimal_text(10), "10");
    assert_eq!(decimal_text(12045), "12045");
    assert_eq!(decimal_text(usize::MAX), usize::MAX.to_string());
}

#[test]
fn chars_and_text_round_trip() {
    let v = chars_of("héllo");
    assert_eq!(v, vec!['h', 'é', 'l', 'l', 'o']);
    assert_eq!(text_of(&v, 1, 4), "éll");
}
