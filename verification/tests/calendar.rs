use callrx::calendar::civil_from_days;
use callrx::text::{contains, decimal_string, str_eq, trim, zero_padded};

#[test]
fn civil_from_days_known_dates() {
    assert_eq!(civil_from_days(0), (1970, 1, 1));
    assert_eq!(civil_from_days(11_016), (2000, 2, 29));
    assert_eq!(civil_from_days(11_017), (2000, 3, 1));
    assert_eq!(civil_from_days(20_454), (2026, 1, 1));
    assert_eq!(civil_from_days(365), (1971, 1, 1));
}

#[test]
fn decimal_rendering() {
    assert_eq!(decimal_string(0), "0");
    assert_eq!(decimal_string(1_234_567), "1234567");
    assert_eq!(decimal_string(u64::MAX), "18446744073709551615");
    assert_eq!(zero_padded(7, 2), "07");
    assert_eq!(zero_padded(2026, 4), "2026");
    assert_eq!(zero_padded(12345, 4), "12345");
}

#[test]
fn text_helpers() {
    assert_eq!(trim("  a b \t\n"), "a b");
    assert_eq!(trim("\u{3000}x\u{a0}"), "x");
    assert!(contains("vscode-insiders", "vscode"));
    assert!(!contains("vs", "vscode"));
    assert!(contains("abc", ""));
    assert!(str_eq("W1AW", "W1AW"));
    assert!(!str_eq("W1AW", "W1AX"));
}
