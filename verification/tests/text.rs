use rbridger::text::{
    contains, decimal_text, ends_with, parse_unsigned, same_text, starts_with, trim,
    trim_start_char,
};

#[test]
fn prefixes_and_suffixes() {
    assert!(starts_with("Saved", "Saved"));
    assert!(starts_with("Saved now", "Saved"));
    assert!(!starts_with("Save", "Saved"));
    assert!(starts_with("x", ""));
    assert!(ends_with("eye_L", "_L"));
    assert!(!ends_with("L", "_L"));
    assert!(ends_with("жук", "к"));
    assert!(same_text("é", "é"));
    assert!(!same_text("a", "b"));
}

#[test]
fn parts_of_a_text() {
    for (whole, part) in
        [("abcabd", "abd"), ("aaa", "aa"), ("", ""), ("abc", ""), ("abc", "abcd"), ("abc", "cb"), ("хлеб", "ле")]
    {
        assert_eq!(contains(whole, part), whole.contains(part), "{whole} {part}");
    }
}

#[test]
fn white_space_is_trimmed_as_std_does() {
    for s in ["", "  ", " a ", "\t\u{a0}x y\u{3000}\n", "\u{200b}z", "\u{85}q\u{2028}", "a"] {
        assert_eq!(trim(s), s.trim());
        assert_eq!(trim(trim(s)), trim(s));
    }
    for p in 0u32..0x11000 {
        if let Some(c) = char::from_u32(p) {
            let s = c.to_string();
            assert_eq!(trim(&s), s.trim(), "{p:x}");
        }
    }
}

#[test]
fn leading_characters_are_trimmed() {
    assert_eq!(trim_start_char("vv1.2", 'v'), "1.2");
    assert_eq!(trim_start_char("1v", 'v'), "1v");
    assert_eq!(trim_start_char("vvv", 'v'), "");
}

#[test]
fn decimals() {
    for n in [0u64, 7, 10, 99, 100, 8001, 65535, u64::MAX] {
        assert_eq!(decimal_text(n), n.to_string());
    }
}

#[test]
fn numbers_are_read_as_std_does() {
    for s in [
        "0", "1", "007", "+5", "+", "-1", "-0", "", " 1", "1 ", "4294967295", "4294967296",
        "99999999999999999999999", "12a", "٣", "++1",
    ] {
        assert_eq!(parse_unsigned(s, u32::MAX), s.parse::<u32>().ok(), "{s}");
    }
    assert_eq!(parse_unsigned("65535", 65535), Some(65535));
    assert_eq!(parse_unsigned("65536", 65535), None);
}

#[test]
fn decimals_are_read_back() {
    for n in [0u32, 9, 10, 8001, u32::MAX] {
        assert_eq!(parse_unsigned(&decimal_text(n as u64), u32::MAX), Some(n));
    }
}
