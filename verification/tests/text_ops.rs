use mousehunter_operators::text::{
    contains, ends_with, eq_ignore_ascii_case, lowercase_equals, parse_i32_str, starts_with, str_eq,
    str_get, str_lt, trim_str, uppercase_ends_with, uppercase_starts_with,
};

#[test]
fn slices_by_bytes() {
    assert_eq!(str_get("2026-01-05T02:00:00Z", 11, 16), Some("02:00"));
    assert_eq!(str_get("abc", 1, 1), Some(""));
    assert_eq!(str_get("abc", 2, 1), None);
    assert_eq!(str_get("abc", 0, 4), None);
    assert_eq!(str_get("aé", 0, 2), None);
    assert_eq!(str_get("aé", 1, 3), Some("é"));
}

#[test]
fn parses_like_std() {
    for t in ["0", "12", "+7", "-7", "-0", "2147483647", "-2147483648", "2147483648", "-2147483649", "", "+", "-", "1a", " 1", "00000000000012", "99999999999"] {
        assert_eq!(parse_i32_str(t), t.parse::<i32>().ok(), "input {:?}", t);
    }
}

#[test]
fn compares_like_std() {
    for (a, b) in [("06:45", "06:44"), ("06:45", "06:45"), ("06:4", "06:45"), ("", "a"), ("b", "ab"), ("é", "z")] {
        assert_eq!(str_lt(a, b), a < b);
        assert_eq!(str_lt(b, a), b < a);
        assert_eq!(str_eq(a, b), a == b);
    }
}

#[test]
fn searches_like_std() {
    assert!(starts_with("HK00700", "HK"));
    assert!(!starts_with("H", "HK"));
    assert!(ends_with("600000.SH", ".SH"));
    assert!(contains("a_volume_trigger_b", "volume_trigger"));
    assert!(contains("abc", ""));
    assert!(!contains("ab", "abc"));
    assert!(eq_ignore_ascii_case("cN", "CN"));
    assert!(!eq_ignore_ascii_case("CNN", "CN"));
    assert!(lowercase_equals("T+1", "t+1"));
    assert!(uppercase_starts_with("sh6", "SH"));
    assert!(uppercase_ends_with("6.sz", ".SZ"));
}

#[test]
fn trims_unicode_white_space() {
    for t in ["  a b  ", "\t\n", "", "x", "\u{3000}x\u{2029}", "\u{85}y\u{a0}", "\u{200b}z"] {
        assert_eq!(trim_str(t), t.trim());
    }
}
