use tinymemory::text::{decimal_string, eq_ignore_ascii_case, is_whitespace};

#[test]
fn numbers_render_in_decimal() {
    assert_eq!(decimal_string(0), "0");
    assert_eq!(decimal_string(7), "7");
    assert_eq!(decimal_string(1024), "1024");
    assert_eq!(decimal_string(u64::MAX as u128), u64::MAX.to_string());
    assert_eq!(decimal_string(u128::MAX), u128::MAX.to_string());
}

#[test]
fn the_whitespace_class_is_unicode_white_space() {
    for c in [' ', '\t', '\n', '\u{85}', '\u{a0}', '\u{2003}', '\u{3000}'] {
        assert_eq!(is_whitespace(c), c.is_whitespace(), "{c:?}");
        assert!(is_whitespace(c));
    }
    for c in ['a', '\u{200b}', '_'] {
        assert_eq!(is_whitespace(c), c.is_whitespace(), "{c:?}");
    }
}

#[test]
fn ascii_case_folding_compares_letters_only() {
    assert!(eq_ignore_ascii_case("DIRECT", "direct"));
    assert!(!eq_ignore_ascii_case("É", "é"));
}
