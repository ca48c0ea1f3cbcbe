use tork_rs::decimal::parse_i32;

#[test]
fn parses_what_str_parse_parses() {
    for s in ["0", "7", "-7", "+7", "007", "-0", "2147483647", "-2147483648", "123456789"] {
        assert_eq!(parse_i32(s), s.parse::<i32>().ok(), "{s}");
    }
}

#[test]
fn rejects_what_str_parse_rejects() {
    for s in ["", "+", "-", "--1", "+-1", "1 ", " 1", "1_000", "0x10", "2147483648", "-2147483649", "99999999999999999999", "١٢", "1e3"] {
        assert_eq!(parse_i32(s), None, "{s}");
        assert!(s.parse::<i32>().is_err(), "{s}");
    }
}

#[test]
fn exact_values() {
    assert_eq!(parse_i32("42"), Some(42));
    assert_eq!(parse_i32("-42"), Some(-42));
    assert_eq!(parse_i32("2147483647"), Some(i32::MAX));
    assert_eq!(parse_i32("-2147483648"), Some(i32::MIN));
}
