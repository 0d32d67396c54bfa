use codex_zcode::text::contains;
use codex_zcode::text::decimal;
use codex_zcode::text::find;
use codex_zcode::text::is_blank;
use codex_zcode::text::is_switched_on;
use codex_zcode::text::is_white_space;
use codex_zcode::text::join;
use codex_zcode::text::parse_unsigned;
use codex_zcode::text::rfind;
use codex_zcode::text::str_eq;
use codex_zcode::text::take_chars;
use codex_zcode::text::trim;
use codex_zcode::text::trim_end;
use codex_zcode::text::trim_start;
use codex_zcode::text::truncate_chars;

#[test]
fn white_space_is_what_the_standard_library_says() {
    for code in 0..=0x10ffff_u32 {
        if let Some(c) = char::from_u32(code) {
            assert_eq!(is_white_space(c), c.is_whitespace(), "code point {code:#x}");
        }
    }
}

#[test]
fn trimming_matches_the_standard_library() {
    for text in [
        "",
        " ",
        "a",
        " a ",
        "\u{3000}\u{e9}t\u{e9}\u{a0}\n",
        "no space",
        "\t\r\n",
        "a \u{2028}",
    ] {
        assert_eq!(trim(text), text.trim(), "{text:?}");
        assert_eq!(trim_end(text), text.trim_end(), "{text:?}");
        assert_eq!(trim_start(text).1, text.trim_start(), "{text:?}");
        assert_eq!(is_blank(text), text.trim().is_empty(), "{text:?}");
    }
    assert_eq!(trim_start("\u{3000} x").0, 2);
}

#[test]
fn unsigned_numbers_read_as_in_the_standard_library() {
    for text in [
        "",
        "0",
        "00",
        "45",
        "+7",
        "+",
        "-1",
        "++1",
        "18446744073709551615",
        "18446744073709551616",
        "99999999999999999999999999",
        "1a",
        " 1",
        "\u{664}",
    ] {
        assert_eq!(parse_unsigned(text), text.parse::<u64>().ok(), "{text:?}");
    }
}

#[test]
fn decimals_are_written_without_leading_zeros() {
    for n in [0, 7, 10, 905, 4096, u64::MAX] {
        assert_eq!(decimal(n), n.to_string());
        assert_eq!(parse_unsigned(&decimal(n)), Some(n));
    }
}

#[test]
fn searching_counts_in_characters() {
    assert_eq!(find("\u{e9}a\u{e9}a", "a"), Some(1));
    assert_eq!(rfind("\u{e9}a\u{e9}a", "a"), Some(3));
    assert_eq!(find("abc", "abcd"), None);
    assert_eq!(rfind("abc", "x"), None);
    assert_eq!(find("abc", ""), Some(0));
    assert_eq!(rfind("abc", ""), Some(3));
    assert!(contains("rate_limited by provider", "rate_limited"));
    assert!(!contains("", "a"));
}

#[test]
fn cutting_keeps_the_start() {
    assert_eq!(take_chars("\u{e9}\u{e8}x", 2), "\u{e9}\u{e8}");
    assert_eq!(take_chars("ab", 5), "ab");
    assert_eq!(truncate_chars("abcdef", 3), "abc\u{2026}");
    assert_eq!(truncate_chars("abc", 3), "abc");
}

#[test]
fn joining_puts_the_separator_between_neighbours() {
    let parts = vec!["a".to_string(), "".to_string(), "b".to_string()];
    assert_eq!(join(&parts, ", "), "a, , b");
    assert_eq!(join(&vec!["only".to_string()], ", "), "only");
    assert_eq!(join(&Vec::new(), ", "), "");
}

#[test]
fn comparing_looks_at_every_character() {
    assert!(str_eq("\u{e9}t\u{e9}", "\u{e9}t\u{e9}"));
    assert!(!str_eq("ab", "ac"));
    assert!(!str_eq("ab", "abc"));
    assert!(str_eq("", ""));
}

#[test]
fn switches_fail_closed() {
    for on in ["1", "true", "yes", " yes\n"] {
        assert!(is_switched_on(Some(on)), "{on:?}");
    }
    for off in ["", "0", "TRUE", "on", "1 1"] {
        assert!(!is_switched_on(Some(off)), "{off:?}");
    }
    assert!(!is_switched_on(None));
}
