use saju_engine::input::{parse_birth_data, parse_birth_date, parse_birth_hour, parse_i32, parse_u32};

#[test]
fn unsigned_numbers_read_as_rust_reads_them() {
    assert_eq!(parse_u32("42"), Some(42));
    assert_eq!(parse_u32("+7"), Some(7));
    assert_eq!(parse_u32("007"), Some(7));
    assert_eq!(parse_u32("4294967295"), Some(4294967295));
    assert_eq!(parse_u32("4294967296"), None);
    assert_eq!(parse_u32("-1"), None);
    assert_eq!(parse_u32("-0"), None);
    assert_eq!(parse_u32(""), None);
    assert_eq!(parse_u32("+"), None);
    assert_eq!(parse_u32("1 "), None);
    assert_eq!(parse_u32("١٢"), None);
    for text in ["0", "12", "+3", "99999999999", "x", "-", "3a"] {
        assert_eq!(parse_u32(text), text.parse::<u32>().ok(), "{}", text);
    }
}

#[test]
fn signed_numbers_read_as_rust_reads_them() {
    assert_eq!(parse_i32("-2147483648"), Some(i32::MIN));
    assert_eq!(parse_i32("2147483647"), Some(i32::MAX));
    assert_eq!(parse_i32("2147483648"), None);
    assert_eq!(parse_i32("-2147483649"), None);
    assert_eq!(parse_i32("+-1"), None);
    assert_eq!(parse_i32("-"), None);
    assert_eq!(parse_i32("1990"), Some(1990));
    for text in ["-0", "+15", "--1", "12345678901", "0x10", " 1"] {
        assert_eq!(parse_i32(text), text.parse::<i32>().ok(), "{}", text);
    }
}

#[test]
fn birth_dates_need_three_fields() {
    assert_eq!(parse_birth_date("1990-05-15"), Some((1990, 5, 15)));
    assert_eq!(parse_birth_date("1990-5-1"), Some((1990, 5, 1)));
    assert_eq!(parse_birth_date("+1990-05-15"), Some((1990, 5, 15)));
    assert_eq!(parse_birth_date("1990-13-45"), Some((1990, 13, 45)));
    assert_eq!(parse_birth_date("-1990-05-15"), None);
    assert_eq!(parse_birth_date("1990-05"), None);
    assert_eq!(parse_birth_date("1990-05-15-"), None);
    assert_eq!(parse_birth_date("1990/05/15"), None);
    assert_eq!(parse_birth_date("1990--15"), None);
    assert_eq!(parse_birth_date(""), None);
}

#[test]
fn birth_hours_are_read_before_the_colon() {
    assert_eq!(parse_birth_hour("14:30"), Some(14));
    assert_eq!(parse_birth_hour("7"), Some(7));
    assert_eq!(parse_birth_hour("25:00"), Some(25));
    assert_eq!(parse_birth_hour(":30"), None);
    assert_eq!(parse_birth_hour("ab:cd"), None);
    assert_eq!(parse_birth_hour(""), None);
}

#[test]
fn birth_data_defaults_to_noon() {
    assert_eq!(parse_birth_data(Some("1990-05-15"), Some("14:30")), Some((1990, 5, 15, 14, true)));
    assert_eq!(parse_birth_data(Some("1990-05-15"), None), Some((1990, 5, 15, 12, false)));
    assert_eq!(parse_birth_data(Some("1990-05-15"), Some("")), Some((1990, 5, 15, 12, false)));
    assert_eq!(parse_birth_data(Some("1990-05-15"), Some("noon")), Some((1990, 5, 15, 12, false)));
    assert_eq!(parse_birth_data(None, Some("14:30")), None);
    assert_eq!(parse_birth_data(Some("15.05.1990"), Some("14:30")), None);
}
