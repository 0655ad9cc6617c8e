use hardware_diagnostic::centi_string;
use hardware_diagnostic::repeat_str;
use hardware_diagnostic::str_contains;
use hardware_diagnostic::tenths_string;
use hardware_diagnostic::u64_string;
use hardware_diagnostic::usize_string;

#[test]
fn test_u64_string() {
    assert_eq!(u64_string(0), "0");
    assert_eq!(u64_string(7), "7");
    assert_eq!(u64_string(10), "10");
    assert_eq!(u64_string(1234), "1234");
    assert_eq!(u64_string(u64::MAX), "18446744073709551615");
    assert_eq!(usize_string(42), "42");
}

#[test]
fn test_tenths_string() {
    assert_eq!(tenths_string(0), "0.0");
    assert_eq!(tenths_string(85), "8.5");
    assert_eq!(tenths_string(100), "10.0");
    assert_eq!(tenths_string(963), "96.3");
}

#[test]
fn test_centi_string() {
    assert_eq!(centi_string(0), "0.00");
    assert_eq!(centi_string(5), "0.05");
    assert_eq!(centi_string(50), "0.50");
    assert_eq!(centi_string(125), "1.25");
    assert_eq!(centi_string(50000), "500.00");
}

#[test]
fn test_repeat_str() {
    assert_eq!(repeat_str("=", 0), "");
    assert_eq!(repeat_str("=", 3), "===");
    assert_eq!(repeat_str("ab", 2), "abab");
}

#[test]
fn test_str_contains() {
    assert!(str_contains("SSD", "SSD"));
    assert!(str_contains("Ext HDD enclosure", "HDD"));
    assert!(str_contains("NVMe drive", "NVMe"));
    assert!(str_contains("anything", ""));
    assert!(!str_contains("hdd", "HDD"));
    assert!(!str_contains("SS", "SSD"));
    assert!(!str_contains("", "x"));
}
