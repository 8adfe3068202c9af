use stash::number::{parse_i32, parse_i64, parse_u32};
use stash::text::{contains_str, i64_text, str_eq_ignore_ascii_case, str_is_blank, trim};

#[test]
fn integers_parse_like_str_parse() {
    assert_eq!(parse_i64("150"), Some(150));
    assert_eq!(parse_i64("+7"), Some(7));
    assert_eq!(parse_i64("-7"), Some(-7));
    assert_eq!(parse_i64("-9223372036854775808"), Some(i64::MIN));
    assert_eq!(parse_i64("9223372036854775807"), Some(i64::MAX));
    assert_eq!(parse_i64("9223372036854775808"), None);
    assert_eq!(parse_i64(""), None);
    assert_eq!(parse_i64("-"), None);
    assert_eq!(parse_i64("+"), None);
    assert_eq!(parse_i64(" 1"), None);
    assert_eq!(parse_i64("1.5"), None);
    assert_eq!(parse_u32("4294967295"), Some(u32::MAX));
    assert_eq!(parse_u32("4294967296"), None);
    assert_eq!(parse_u32("-0"), None);
    assert_eq!(parse_u32("+0"), Some(0));
    assert_eq!(parse_i32("-3"), Some(-3));
    assert_eq!(parse_i32("-2147483649"), None);
    for s in ["0", "12", "-12", "+12", "x", "", "99999999999", "-2147483648"] {
        assert_eq!(parse_i32(s), s.parse::<i32>().ok(), "{s}");
        assert_eq!(parse_u32(s), s.parse::<u32>().ok(), "{s}");
        assert_eq!(parse_i64(s), s.parse::<i64>().ok(), "{s}");
    }
}

#[test]
fn text_helpers() {
    assert!(contains_str("abc items.sku def", "items.sku"));
    assert!(!contains_str("items.sk", "items.sku"));
    assert!(contains_str("x", ""));
    assert_eq!(trim("  a b \t"), "a b");
    assert_eq!(trim("   "), "");
    assert!(str_is_blank(" \t\n"));
    assert!(!str_is_blank(" x "));
    assert!(str_eq_ignore_ascii_case("General", "gENERAL"));
    assert!(!str_eq_ignore_ascii_case("General", "Generals"));
    assert_eq!(i64_text(-250), "-250");
    assert_eq!(i64_text(i64::MIN), i64::MIN.to_string());
    assert_eq!(i64_text(0), "0");
}

#[test]
fn whitespace_agrees_with_char_is_whitespace() {
    for code in 0u32..=0x10FFFF {
        if let Some(c) = char::from_u32(code) {
            let s = c.to_string();
            assert_eq!(str_is_blank(&s), c.is_whitespace(), "U+{code:04X}");
            assert_eq!(trim(&s).is_empty(), c.is_whitespace(), "U+{code:04X}");
        }
    }
}
