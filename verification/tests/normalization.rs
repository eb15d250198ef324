use pokedex::text::{eq_ignore_ascii_case, normalize_description};

#[test]
fn multi_line_flavor_text_collapses_to_single_spaces() {
    assert_eq!(
        normalize_description("line one\nline two\x0cline three"),
        "line one line two line three"
    );
}

#[test]
fn empty_text_stays_empty() {
    assert_eq!(normalize_description(""), "");
}

#[test]
fn plain_text_is_unchanged() {
    assert_eq!(normalize_description("already one line"), "already one line");
}

#[test]
fn newline_becomes_single_space() {
    assert_eq!(normalize_description("a\nb"), "a b");
}

#[test]
fn carriage_return_line_break_becomes_single_space() {
    assert_eq!(normalize_description("a\r\nb"), "a b");
}

#[test]
fn trailing_line_break_is_dropped() {
    assert_eq!(normalize_description("a\n"), "a");
    assert_eq!(normalize_description("a\r\n"), "a");
}

#[test]
fn consecutive_line_breaks_keep_one_space_each() {
    assert_eq!(normalize_description("a\n\nb"), "a  b");
}

#[test]
fn form_feed_becomes_single_space() {
    assert_eq!(normalize_description("a\x0cb"), "a b");
    assert_eq!(normalize_description("a\x0c"), "a ");
}

#[test]
fn lone_carriage_return_is_kept() {
    assert_eq!(normalize_description("a\rb"), "a\rb");
}

#[test]
fn case_insensitive_equality() {
    assert!(eq_ignore_ascii_case("CAVE", "cave"));
    assert!(eq_ignore_ascii_case("CaVe", "cAvE"));
    assert!(eq_ignore_ascii_case("", ""));
    assert!(!eq_ignore_ascii_case("cave", "cove"));
    assert!(!eq_ignore_ascii_case("cave", "caves"));
}
