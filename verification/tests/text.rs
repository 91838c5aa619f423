use rmp::text::{char_is_white_space, parse_u32, decimal_string, pad_left_string, repeat_string, signed_decimal_string, str_eq, str_is_blank, trim_str};

#[test]
fn trims_unicode_whitespace() {
    assert_eq!(trim_str("  a b \t\n"), "a b");
    assert_eq!(trim_str("\u{3000}x\u{a0}"), "x");
    assert_eq!(trim_str("   "), "");
    assert_eq!(trim_str(""), "");
    for s in [" x ", "\u{2003}héllo\u{85}", "\t\t", "a"] {
        assert_eq!(trim_str(s), s.trim());
    }
}

#[test]
fn whitespace_matches_std() {
    for u in 0u32..0x3100 {
        if let Some(c) = char::from_u32(u) {
            assert_eq!(char_is_white_space(c), c.is_whitespace(), "{u:x}");
        }
    }
}

#[test]
fn blank_strings() {
    assert!(str_is_blank(""));
    assert!(str_is_blank(" \t"));
    assert!(!str_is_blank(" x "));
}

#[test]
fn decimals() {
    assert_eq!(decimal_string(0), "0");
    assert_eq!(decimal_string(7), "7");
    assert_eq!(decimal_string(1234567890), "1234567890");
    assert_eq!(decimal_string(u64::MAX), u64::MAX.to_string());
    assert_eq!(signed_decimal_string(-42), "-42");
    assert_eq!(signed_decimal_string(i64::MIN), i64::MIN.to_string());
    assert_eq!(signed_decimal_string(0), "0");
}

#[test]
fn padding_and_repeats() {
    assert_eq!(pad_left_string("5", 3), "  5");
    assert_eq!(pad_left_string("130", 3), "130");
    assert_eq!(pad_left_string("-1234", 3), "-1234");
    assert_eq!(repeat_string('#', 3), "###");
    assert_eq!(repeat_string('-', 0), "");
}

#[test]
fn string_equality() {
    assert!(str_eq("abc", "abc"));
    assert!(!str_eq("abc", "abd"));
    assert!(!str_eq("ab", "abc"));
    assert!(str_eq("", ""));
}

#[test]
fn parses_pids_as_std_does() {
    for s in ["0", "42", "+7", "007", "4294967295", "4294967296", "", "+", "-1", "12a", " 1", "99999999999999999999"] {
        assert_eq!(parse_u32(s), s.parse::<u32>().ok(), "{s:?}");
    }
}
