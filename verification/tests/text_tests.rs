use ai_query_check::hook::truncate;
use ai_query_check::text::{is_whitespace_char, unquote_outer};

#[test]
fn unquote_removes_one_pair_of_matching_quotes() {
    assert_eq!(unquote_outer("'SHOW TABLES'"), "SHOW TABLES");
    assert_eq!(unquote_outer("\"SELECT 1\""), "SELECT 1");
    assert_eq!(unquote_outer("\"a 'b' c\""), "a 'b' c");
    assert_eq!(unquote_outer("''x''"), "'x'");
}

#[test]
fn unquote_trims_first() {
    assert_eq!(unquote_outer("  'a b'\n"), "a b");
    assert_eq!(unquote_outer(" plain "), "plain");
    assert_eq!(unquote_outer("\u{3000}'x'\u{a0}"), "x");
}

#[test]
fn unquote_leaves_unmatched_or_short_words() {
    assert_eq!(unquote_outer("'a\""), "'a\"");
    assert_eq!(unquote_outer("'"), "'");
    assert_eq!(unquote_outer(""), "");
    assert_eq!(unquote_outer("\"\""), "");
    assert_eq!(unquote_outer("é"), "é");
}

#[test]
fn whitespace_matches_std() {
    for u in 0u32..0x110000 {
        if let Some(c) = char::from_u32(u) {
            assert_eq!(is_whitespace_char(c), c.is_whitespace(), "U+{:04X}", u);
        }
    }
}

#[test]
fn truncate_cuts_long_text() {
    assert_eq!(truncate("abcdef", 3), "abc...");
    assert_eq!(truncate("abc", 3), "abc");
    assert_eq!(truncate("ab", 3), "ab");
    assert_eq!(truncate("aé", 3), "aé");
    assert_eq!(truncate("aéb", 3), "aé...");
}

#[test]
fn truncating_twice_is_truncating_once() {
    for (s, n) in [("abcdef", 3usize), ("aéb", 3), ("ab", 3), ("SELECT * FROM users", 6)] {
        let once = truncate(s, n);
        assert_eq!(truncate(&once, n), once);
    }
}
