use portfolio_tracker::decimal::{
    fmt_thousands, i64_to_string, parse_i64, parse_label_ids, parse_u64, u64_to_string,
};
use portfolio_tracker::text::{concat3, str_eq, trimmed};

#[test]
fn u64_text_is_plain_decimal() {
    assert_eq!(u64_to_string(0), "0");
    assert_eq!(u64_to_string(7), "7");
    assert_eq!(u64_to_string(1234567890), "1234567890");
    assert_eq!(u64_to_string(u64::MAX), "18446744073709551615");
}

#[test]
fn i64_text_has_sign_only_when_negative() {
    assert_eq!(i64_to_string(42), "42");
    assert_eq!(i64_to_string(-42), "-42");
    assert_eq!(i64_to_string(i64::MIN), "-9223372036854775808");
    assert_eq!(i64_to_string(i64::MAX), "9223372036854775807");
}

#[test]
fn thousands_groups_from_the_right() {
    assert_eq!(fmt_thousands(1234567), "1,234,567");
    assert_eq!(fmt_thousands(-1500), "-1,500");
    assert_eq!(fmt_thousands(999), "999");
    assert_eq!(fmt_thousands(1000), "1,000");
    assert_eq!(fmt_thousands(0), "0");
    assert_eq!(fmt_thousands(-12), "-12");
    assert_eq!(fmt_thousands(100000), "100,000");
}

#[test]
fn thousands_keeps_the_digits() {
    for n in [0i64, 5, -5, 999, 1000, -1000, 123456789, -987654321, i64::MAX] {
        let grouped = fmt_thousands(n);
        let digits: String = grouped.chars().filter(|c| *c != ',').collect();
        assert_eq!(digits, n.to_string());
    }
}

#[test]
fn parse_i64_follows_std() {
    for s in ["0", "42", "-42", "+7", "007", "9223372036854775807", "-9223372036854775808"] {
        assert_eq!(parse_i64(s), s.parse::<i64>().ok(), "{s}");
    }
    for s in ["", "-", "+", "1a", " 1", "9223372036854775808", "-9223372036854775809", "1.5"] {
        assert_eq!(parse_i64(s), None, "{s}");
    }
}

#[test]
fn parse_u64_follows_std() {
    assert_eq!(parse_u64("3600"), Some(3600));
    assert_eq!(parse_u64("+60"), Some(60));
    assert_eq!(parse_u64("18446744073709551615"), Some(u64::MAX));
    assert_eq!(parse_u64("18446744073709551616"), None);
    assert_eq!(parse_u64("-1"), None);
    assert_eq!(parse_u64("-0"), None);
    assert_eq!(parse_u64(""), None);
    assert_eq!(parse_u64("12x"), None);
}

#[test]
fn text_roundtrips_through_parse() {
    for n in [0u64, 1, 10, 3600, u64::MAX] {
        assert_eq!(parse_u64(&u64_to_string(n)), Some(n));
    }
    for n in [0i64, -1, 77, i64::MIN, i64::MAX] {
        assert_eq!(parse_i64(&i64_to_string(n)), Some(n));
    }
}

#[test]
fn label_ids_are_read_from_the_form_list() {
    assert_eq!(parse_label_ids("3, 7,12"), vec![3, 7, 12]);
    assert_eq!(parse_label_ids(""), Vec::<i64>::new());
    assert_eq!(parse_label_ids(" , x, 5,-2,"), vec![5, -2]);
    assert_eq!(parse_label_ids("\t9 \n"), vec![9]);
    assert_eq!(parse_label_ids(",,"), Vec::<i64>::new());
}

#[test]
fn label_ids_roundtrip() {
    let ids = vec![1i64, -20, 300, 0, i64::MIN];
    let text = ids.iter().map(|v| v.to_string()).collect::<Vec<_>>().join(",");
    assert_eq!(parse_label_ids(&text), ids);
}

#[test]
fn text_helpers() {
    assert!(str_eq("abc", "abc"));
    assert!(!str_eq("abc", "abd"));
    assert!(!str_eq("ab", "abc"));
    assert_eq!(trimmed("  eur \n"), "eur");
    assert_eq!(trimmed("\u{3000}x\u{a0}"), "x");
    assert_eq!(trimmed("   "), "");
    assert_eq!(concat3("a", "/", "b"), "a/b");
}
