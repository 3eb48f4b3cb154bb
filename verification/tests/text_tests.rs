use dapr::text::{
    contains_str, find_str, i64_to_string, parse_u16, parse_u64, parse_unsigned_bounded,
    split_char, str_eq, trim_str, u64_to_string,
};

#[test]
fn decimal_text_of_unsigned_numbers() {
    assert_eq!(u64_to_string(0), "0");
    assert_eq!(u64_to_string(7), "7");
    assert_eq!(u64_to_string(50001), "50001");
    assert_eq!(u64_to_string(u64::MAX), "18446744073709551615");
}

#[test]
fn decimal_text_of_signed_numbers() {
    assert_eq!(i64_to_string(0), "0");
    assert_eq!(i64_to_string(-1), "-1");
    assert_eq!(i64_to_string(42), "42");
    assert_eq!(i64_to_string(i64::MIN), "-9223372036854775808");
    assert_eq!(i64_to_string(i64::MAX), "9223372036854775807");
}

#[test]
fn parse_u64_agrees_with_std() {
    for s in [
        "0",
        "12",
        "+12",
        "+",
        "",
        "-1",
        " 1",
        "1 ",
        "007",
        "18446744073709551615",
        "18446744073709551616",
        "99999999999999999999999",
        "1a",
    ] {
        assert_eq!(parse_u64(s), s.parse::<u64>().ok(), "input {s:?}");
    }
}

#[test]
fn parse_u16_agrees_with_std() {
    for s in ["65535", "65536", "50001", "+80", "0", "x", "", "-0"] {
        assert_eq!(parse_u16(s), s.parse::<u16>().ok(), "input {s:?}");
    }
}

#[test]
fn parse_bounded_respects_the_bound() {
    assert_eq!(parse_unsigned_bounded("255", 255), Some(255));
    assert_eq!(parse_unsigned_bounded("256", 255), None);
    assert_eq!(parse_unsigned_bounded("9", 9), Some(9));
}

#[test]
fn trim_agrees_with_std() {
    for s in ["", "   ", " a ", "\t\nab c\r\n", "x", "\u{3000}wide\u{2003}"] {
        assert_eq!(trim_str(s), s.trim(), "input {s:?}");
    }
}

#[test]
fn find_and_contains() {
    assert_eq!(find_str("http://host", "://"), Some(4));
    assert_eq!(find_str("host", "://"), None);
    assert_eq!(find_str("aaa", ""), Some(0));
    assert_eq!(find_str("ab<c<d", "<"), Some(2));
    assert!(contains_str("a::b", "::"));
    assert!(!contains_str("a:b", "::"));
    assert!(str_eq("same", "same"));
    assert!(!str_eq("same", "sam"));
}

#[test]
fn split_agrees_with_std() {
    for s in ["", "-", "a-b", "00-1-2-01", "--x--", "plain"] {
        let expected: Vec<String> = s.split('-').map(|p| p.to_string()).collect();
        assert_eq!(split_char(s, '-'), expected, "input {s:?}");
    }
}
