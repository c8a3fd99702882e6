use tinymemory::preview::{utf8_prefix, utf8_suffix};

#[test]
fn preview_keeps_short_text() {
    assert_eq!(utf8_prefix("hello", 2048), "hello");
}

#[test]
fn preview_respects_utf8_byte_boundary() {
    assert_eq!(utf8_prefix("aéb", 2), "a");
    assert_eq!(utf8_prefix("éb", 2), "é");
}

#[test]
fn suffix_preview_preserves_trailing_utf8() {
    assert_eq!(utf8_suffix("aéb", 2), "b");
    assert_eq!(utf8_suffix("aéb", 3), "éb");
}

#[test]
fn a_zero_budget_previews_nothing() {
    assert_eq!(utf8_prefix("hello", 0), "");
    assert_eq!(utf8_suffix("hello", 0), "");
}

#[test]
fn a_budget_inside_a_four_byte_character_stops_before_it() {
    assert_eq!(utf8_prefix("a🧠b", 4), "a");
    assert_eq!(utf8_prefix("a🧠b", 5), "a🧠");
    assert_eq!(utf8_suffix("a🧠b", 4), "b");
    assert_eq!(utf8_suffix("a🧠b", 5), "🧠b");
}
