use data_contract_version_gate::text::{chars_of, is_blank_str, is_whitespace_char, starts_with_chars};

#[test]
fn whitespace_matches_std_for_every_char() {
    for u in 0u32..=0x10FFFF {
        if let Some(c) = char::from_u32(u) {
            assert_eq!(is_whitespace_char(c), c.is_whitespace(), "char U+{:04X}", u);
        }
    }
}

#[test]
fn blank_matches_trim() {
    for s in ["", " ", "\t\n", "\u{2003}", " a ", "x", "\u{200b}"] {
        assert_eq!(is_blank_str(s), s.trim().is_empty(), "{:?}", s);
    }
}

#[test]
fn chars_and_prefix() {
    assert_eq!(chars_of("héllo"), vec!['h', 'é', 'l', 'l', 'o']);
    assert!(starts_with_chars(&chars_of("application/json; x"), &chars_of("application/json")));
    assert!(!starts_with_chars(&chars_of("application/js"), &chars_of("application/json")));
    assert!(starts_with_chars(&chars_of("abc"), &chars_of("")));
}
