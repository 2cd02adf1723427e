use paperclip_bridge::text::{all_id_chars, starts_with, trim, trim_trailing_slashes};

#[test]
fn trim_drops_ascii_whitespace_at_both_ends() {
    assert_eq!(trim("  \t https://p.example \r\n"), "https://p.example");
}

#[test]
fn trim_drops_unicode_whitespace() {
    assert_eq!(trim("\u{3000}\u{a0}abc\u{2029}\u{85}"), "abc");
}

#[test]
fn trim_keeps_inner_whitespace_and_empties_blank_input() {
    assert_eq!(trim(" a b "), "a b");
    assert_eq!(trim(" \u{2003} "), "");
    assert_eq!(trim(""), "");
}

#[test]
fn trim_trailing_slashes_drops_the_whole_run() {
    assert_eq!(trim_trailing_slashes("https://p.example///"), "https://p.example");
    assert_eq!(trim_trailing_slashes("a/b"), "a/b");
    assert_eq!(trim_trailing_slashes("///"), "");
}

#[test]
fn starts_with_compares_characters() {
    assert!(starts_with("pcp_board_abc", "pcp_board_"));
    assert!(!starts_with("pcp_boar", "pcp_board_"));
    assert!(!starts_with("pcp_Board_abc", "pcp_board_"));
    assert!(starts_with("x", ""));
}

#[test]
fn id_chars_are_ascii_alphanumerics_and_hyphens() {
    assert!(all_id_chars("abc-DEF-019"));
    assert!(!all_id_chars("abc_def"));
    assert!(!all_id_chars("ab\u{e9}"));
    assert!(all_id_chars(""));
}
