use b2b_product_catalog_quote_system_api::text::{
    contains_str, has_char, is_blank, same_text, split_on_commas, trimmed, white_space,
};

#[test]
fn white_space_set() {
    for c in ['\t', '\n', '\u{b}', '\u{c}', '\r', ' ', '\u{85}', '\u{a0}', '\u{1680}', '\u{2000}', '\u{200a}', '\u{2028}', '\u{2029}', '\u{202f}', '\u{205f}', '\u{3000}'] {
        assert!(white_space(c));
        assert!(c.is_whitespace());
    }
    for c in ['a', '\u{200b}', '\u{feff}', '\u{1}', '_'] {
        assert!(!white_space(c));
        assert_eq!(white_space(c), c.is_whitespace());
    }
}

#[test]
fn trimming_matches_std() {
    for s in ["", "  ", " a ", "\u{3000}ab c\t", "abc", "\n\u{85}x"] {
        assert_eq!(trimmed(s), s.trim());
        assert_eq!(is_blank(s), s.trim().is_empty());
    }
}

#[test]
fn search_and_split() {
    assert!(contains_str("my-your-secret", "your-secret"));
    assert!(!contains_str("your-secre", "your-secret"));
    assert!(contains_str("abc", ""));
    assert!(has_char("a@b", '@'));
    assert!(!has_char("ab", '@'));
    assert!(same_text("ñ", "ñ"));
    assert!(!same_text("n", "ñ"));
    for s in ["", ",", "a,b", "a,,b,", "x"] {
        let expected: Vec<String> = s.split(',').map(|p| p.to_string()).collect();
        assert_eq!(split_on_commas(s), expected);
    }
}
