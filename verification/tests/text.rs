use ezpr::text::{char_is_whitespace, decimal_string, same_text, split_words};

#[test]
fn decimal_strings() {
    assert_eq!(decimal_string(0), "0");
    assert_eq!(decimal_string(7), "7");
    assert_eq!(decimal_string(10), "10");
    assert_eq!(decimal_string(8080), "8080");
    assert_eq!(decimal_string(u64::MAX), u64::MAX.to_string());
}

#[test]
fn words_like_split_whitespace() {
    for s in ["", "   ", "a", " a b  c ", "GET /?code=1 HTTP/1.1\r\n", "x\u{3000}y\u{a0}z", "tab\tsep\nnew"] {
        let expected: Vec<String> = s.split_whitespace().map(|w| w.to_string()).collect();
        assert_eq!(split_words(s), expected, "for {:?}", s);
    }
}

#[test]
fn white_space_matches_std_for_every_char() {
    for n in 0u32..=0x10FFFF {
        if let Some(c) = char::from_u32(n) {
            assert_eq!(char_is_whitespace(c), c.is_whitespace(), "for U+{:04X}", n);
        }
    }
}

#[test]
fn same_text_compares_every_character() {
    assert!(same_text("", ""));
    assert!(same_text("h\u{e9}llo", "h\u{e9}llo"));
    assert!(!same_text("abc", "abd"));
    assert!(!same_text("ab", "abc"));
    assert!(!same_text("abc", "ab"));
}
