use molvakt::phone::{
    contact_label, display_phone, looks_like_phone, normalize_phone, partner_label, phones_match,
};
use molvakt::text::{
    chars_of, i64_text, is_whitespace, parse_i64, parse_usize, string_of, trim_chars,
    truncate_to_bytes, usize_text,
};
use molvakt::text::cuts_at;

#[test]
fn normalize_keeps_only_digits() {
    assert_eq!(normalize_phone("+47 912-34 567"), "4791234567");
    assert_eq!(normalize_phone("abc"), "");
}

#[test]
fn normalize_is_idempotent() {
    let once = normalize_phone("+1 (555) 010-9999");
    assert_eq!(normalize_phone(&once), once);
}

#[test]
fn phones_match_ignores_formatting() {
    assert!(phones_match("+47 912 34 567", "4791234567"));
    assert!(!phones_match("+47 912 34 567", "4791234568"));
}

#[test]
fn looks_like_phone_needs_eight_digits_and_mostly_digits() {
    assert!(looks_like_phone(" +47 912 34 567 "));
    assert!(!looks_like_phone("1234567"));
    assert!(!looks_like_phone("Norwegian"));
    assert!(!looks_like_phone("   "));
    // 8 digits among 17 characters: fewer than half are digits.
    assert!(!looks_like_phone("a1b2c3d4e5f6g7h8i"));
    // Half is counted in bytes: five two-byte letters outweigh eight digits.
    assert!(!looks_like_phone("12345678æææææ"));
    assert!(looks_like_phone("12345678ææææ"));
}

#[test]
fn display_phone_adds_plus() {
    assert_eq!(display_phone("47 912 34 567"), "+4791234567");
    assert_eq!(display_phone("none"), "none");
}

#[test]
fn contact_label_prefers_trimmed_name() {
    assert_eq!(contact_label("4791234567", Some("  Mel ")), "Mel");
    assert_eq!(contact_label("4791234567", Some("   ")), "+4791234567");
    assert_eq!(contact_label("4791234567", None), "+4791234567");
}

#[test]
fn partner_label_adds_language() {
    assert_eq!(partner_label("4791234567", "Norwegian", Some("Alice")), "Alice (Norwegian)");
    assert_eq!(partner_label("4791234567", "Norwegian", None), "+4791234567 (Norwegian)");
}

#[test]
fn whitespace_agrees_with_std_for_every_char() {
    for u in 0u32..0x11_0000 {
        if let Some(c) = char::from_u32(u) {
            assert_eq!(is_whitespace(c), c.is_whitespace(), "char {u:#x}");
        }
    }
}

#[test]
fn trim_agrees_with_std() {
    for s in ["  a b  ", "\u{3000}x\u{a0}", "", "   ", "\tSWITCH 2\n"] {
        assert_eq!(string_of(&trim_chars(&chars_of(s))), s.trim());
    }
}

#[test]
fn parsing_numbers_agrees_with_std() {
    for s in ["0", "12", "+7", "-3", "", "+", "1a", "18446744073709551615", "18446744073709551616"] {
        assert_eq!(parse_usize(&chars_of(s)), s.parse::<usize>().ok(), "{s}");
    }
    for s in [
        "0",
        "-0",
        "-9223372036854775808",
        "9223372036854775807",
        "9223372036854775808",
        "-9223372036854775809",
        "+5",
        "--1",
        "-",
    ] {
        assert_eq!(parse_i64(&chars_of(s)), s.parse::<i64>().ok(), "{s}");
    }
}

#[test]
fn numbers_are_written_as_display_writes_them() {
    for n in [0usize, 7, 10, 99, 12345, usize::MAX] {
        assert_eq!(string_of(&usize_text(n)), n.to_string());
    }
    for n in [0i64, -1, 42, i64::MIN, i64::MAX] {
        assert_eq!(string_of(&i64_text(n)), n.to_string());
    }
}

#[test]
fn truncation_matches_string_truncate() {
    let s = "Exchange — you learn Norsk";
    let mut expected = s.to_string();
    expected.truncate(12);
    assert_eq!(string_of(&truncate_to_bytes(&chars_of(s), 12)), expected);
    assert_eq!(string_of(&truncate_to_bytes(&chars_of("short"), 72)), "short");
}

#[test]
fn where_truncation_may_cut() {
    let s = chars_of("blåbær");
    assert!(cuts_at(&s, 2));
    assert!(!cuts_at(&s, 3));
    assert!(cuts_at(&s, 4));
    assert!(cuts_at(&s, 100));
    assert!(cuts_at(&chars_of(""), 0));
    for max in 0..10 {
        assert_eq!(cuts_at(&s, max), "blåbær".is_char_boundary(max) || max >= "blåbær".len());
    }
}

#[test]
fn trimming_twice_is_trimming_once() {
    for s in [" \u{2003}hei\t", "", "\n\n", "a b"] {
        let once = trim_chars(&chars_of(s));
        assert_eq!(trim_chars(&once), once);
    }
}
