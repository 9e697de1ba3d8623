use background_jobs::text::{
    contains_chars, from_chars, is_whitespace, split_whitespace_chars, starts_with_chars,
    strip_prefix_chars, to_chars, trim_chars,
};

fn chars(s: &str) -> Vec<char> {
    s.chars().collect()
}

#[test]
fn whitespace_agrees_with_std() {
    for u in 0u32..0x3100 {
        if let Some(c) = char::from_u32(u) {
            assert_eq!(is_whitespace(c), c.is_whitespace(), "{:#x}", u);
        }
    }
    assert!(!is_whitespace('\u{180e}'));
    assert!(!is_whitespace('\u{feff}'));
}

#[test]
fn trim_agrees_with_std() {
    for s in ["", "   ", " a ", "\u{3000}ab c\u{2029}", "x", "\t\r\n x \t"] {
        assert_eq!(trim_chars(&chars(s)), chars(s.trim()));
    }
}

#[test]
fn split_agrees_with_std() {
    for s in ["", "   ", "a", " a  b\tc\u{a0}d ", "PLAIN LOGIN", "x\u{2003}\u{2003}y"] {
        let expected: Vec<Vec<char>> = s.split_whitespace().map(chars).collect();
        assert_eq!(split_whitespace_chars(&chars(s)), expected);
    }
}

#[test]
fn prefix_and_contains() {
    assert_eq!(strip_prefix_chars(&chars("250-AUTH X"), &chars("250-AUTH ")), Some(chars("X")));
    assert_eq!(strip_prefix_chars(&chars("250-AUTH"), &chars("250-AUTH ")), None);
    assert_eq!(strip_prefix_chars(&chars("251-AUTH X"), &chars("250-AUTH ")), None);
    assert!(starts_with_chars(&chars("220 ready"), &chars("220")));
    assert!(!starts_with_chars(&chars("22"), &chars("220")));
    assert!(contains_chars(&chars("/tmp/a.sock"), &chars(".sock")));
    assert!(contains_chars(&chars(".sock"), &chars(".sock")));
    assert!(!contains_chars(&chars("/tmp/a.soc"), &chars(".sock")));
    assert!(contains_chars(&chars("abc"), &chars("")));
}

#[test]
fn chars_round_trip() {
    let s = "h\u{e9}llo \u{1f600}";
    assert_eq!(to_chars(s), chars(s));
    assert_eq!(from_chars(&chars(s)), s);
}
