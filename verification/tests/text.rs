use apeclaw::text::{
    chars_of, contains_str, eq_ignore_ascii_case, is_whitespace_char, str_equals, trim,
    trim_start_matches_char,
};

#[test]
fn trim_removes_unicode_whitespace() {
    assert_eq!(trim("  \t\u{2003}Kandy \n"), "Kandy");
    assert_eq!(trim(" \u{85} "), "");
    assert_eq!(trim("a b"), "a b");
    assert_eq!(trim(""), "");
}

#[test]
fn whitespace_classification_matches_std() {
    for c in ['\t', '\n', ' ', '\u{85}', '\u{a0}', '\u{1680}', '\u{2000}', '\u{200a}', '\u{2028}',
        '\u{2029}', '\u{202f}', '\u{205f}', '\u{3000}', 'a', '\u{200b}', '_', '\u{180e}']
    {
        assert_eq!(is_whitespace_char(c), c.is_whitespace());
    }
}

#[test]
fn ascii_case_folding_only() {
    assert!(eq_ignore_ascii_case("New Zealand", "NEW zealand"));
    assert!(!eq_ignore_ascii_case("É", "é"));
    assert!(!eq_ignore_ascii_case("India", "Indi"));
    assert!(eq_ignore_ascii_case("", ""));
}

#[test]
fn substring_search() {
    assert!(contains_str("trip on may 12", "may 12"));
    assert!(contains_str("abc", ""));
    assert!(!contains_str("may 1", "may 12"));
    assert!(!contains_str("mAy 12", "may 12"));
}

#[test]
fn equality_and_prefix_stripping() {
    assert!(str_equals("Galle", "Galle"));
    assert!(!str_equals("Galle", "galle"));
    assert_eq!(trim_start_matches_char("&&a&b", '&'), "a&b");
    assert_eq!(chars_of("ලං"), vec!['ල', 'ං']);
}
