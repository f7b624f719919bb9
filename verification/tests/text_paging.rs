use pds::paging::{clamp_limit, i64_to_string, next_key_cursor, next_text_cursor, parse_i64, u64_to_string};
use pds::text::{
    eq_ignore_ascii_case, is_blank, is_white_space, replace_all, second_piece, split_once_char, str_le, strip_prefix, trim, trim_end_char,
};

#[test]
fn trimming_follows_unicode_white_space() {
    assert_eq!(trim("\u{3000} a b \n"), "a b");
    assert!(is_blank(" \t "));
    assert_eq!(trim_end_char("https://x.example///", '/'), "https://x.example");
}

#[test]
fn case_insensitive_comparison_is_ascii_only() {
    assert!(eq_ignore_ascii_case("HeLLo", "hello"));
    assert!(!eq_ignore_ascii_case("ß", "SS"));
    assert!(!eq_ignore_ascii_case("a", "ab"));
}

#[test]
fn splitting_and_prefixes() {
    assert_eq!(split_once_char("a|b|c", '|'), Some(("a".to_string(), "b|c".to_string())));
    assert_eq!(second_piece("h.p.s", '.').as_deref(), Some("p"));
    assert_eq!(second_piece("h.p", '.').as_deref(), Some("p"));
    assert_eq!(second_piece("hp", '.'), None);
    assert_eq!(strip_prefix("Bearer x", "Bearer ").as_deref(), Some("x"));
    assert_eq!(strip_prefix("Bear", "Bearer "), None);
    assert!(str_le("2026-01-01 00:00:00", "2026-01-01 00:00:00"));
    assert!(!str_le("2026-01-02", "2026-01-01"));
}

#[test]
fn replacing_every_occurrence_left_to_right() {
    assert_eq!(replace_all("aaa", "aa", "b"), "ba");
    assert_eq!(replace_all("x{{p}}y{{p}}", "{{p}}", "Q"), "xQyQ");
    assert_eq!(replace_all("none here", "{{p}}", "Q"), "none here");
}

#[test]
fn decimal_cursors_round_trip() {
    for n in [0i64, 7, -42, i64::MAX, i64::MIN] {
        assert_eq!(parse_i64(&i64_to_string(n)), Some(n));
    }
    assert_eq!(parse_i64("+5"), Some(5));
    assert_eq!(parse_i64("9223372036854775808"), None);
    assert_eq!(parse_i64(""), None);
    assert_eq!(u64_to_string(u64::MAX), "18446744073709551615");
    assert_eq!(clamp_limit(None, 50, 100), 50);
    assert_eq!(clamp_limit(Some(-1), 50, 100), 1);
    assert_eq!(next_key_cursor(&[3, 2], 2).as_deref(), Some("2"));
    assert_eq!(next_key_cursor(&[], 0), None);
    assert_eq!(next_text_cursor(&["a".to_string()], 1).as_deref(), Some("a"));
}

#[test]
fn white_space_matches_std_for_every_char() {
    for n in 0..=0x10ffffu32 {
        if let Some(c) = char::from_u32(n) {
            assert_eq!(is_white_space(c), c.is_whitespace(), "U+{n:04X}");
        }
    }
}
