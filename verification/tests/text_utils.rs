//! The shared string utilities: integer-key detection and decimal rendering.

use ardite::text::{check_integer_key, decimal_string};

#[test]
fn test_check_integer_key() {
    assert!(check_integer_key("0"));
    assert!(check_integer_key("1"));
    assert!(check_integer_key("007"));
    assert!(check_integer_key("9999999999999999999999999"));
    assert!(!check_integer_key(""));
    assert!(!check_integer_key("-1"));
    assert!(!check_integer_key("1.5"));
    assert!(!check_integer_key("hello"));
    assert!(!check_integer_key("12a"));
}

#[test]
fn test_decimal_string() {
    assert_eq!(decimal_string(0), "0");
    assert_eq!(decimal_string(7), "7");
    assert_eq!(decimal_string(10), "10");
    assert_eq!(decimal_string(409), "409");
    assert_eq!(decimal_string(18446744073709551615), "18446744073709551615");
}
