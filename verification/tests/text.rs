use addr_resolver::text::{decimal, has_prefix, hex};

#[test]
fn decimal_of_zero_is_one_digit() {
    assert_eq!(decimal(0), "0");
}

#[test]
fn decimal_of_small_numbers() {
    assert_eq!(decimal(7), "7");
    assert_eq!(decimal(10), "10");
    assert_eq!(decimal(42), "42");
    assert_eq!(decimal(4096), "4096");
    assert_eq!(decimal(16384), "16384");
    assert_eq!(decimal(20480), "20480");
}

#[test]
fn decimal_of_the_largest_number() {
    assert_eq!(decimal(u64::MAX), "18446744073709551615");
}

#[test]
fn decimal_agrees_with_the_standard_rendering() {
    let mut n: u64 = 0;
    while n < 3000 {
        assert_eq!(decimal(n), n.to_string());
        n += 1;
    }
    let mut m: u64 = 1;
    while m < u64::MAX / 7 {
        assert_eq!(decimal(m), m.to_string());
        assert_eq!(decimal(m - 1), (m - 1).to_string());
        m *= 7;
    }
}

#[test]
fn hex_of_zero_keeps_one_digit() {
    assert_eq!(hex(0), "0x0");
}

#[test]
fn hex_is_lower_case_with_prefix() {
    assert_eq!(hex(0x1000), "0x1000");
    assert_eq!(hex(255), "0xff");
    assert_eq!(hex(0xABCDEF), "0xabcdef");
    assert_eq!(hex(0x9), "0x9");
    assert_eq!(hex(0xa), "0xa");
    assert_eq!(hex(16), "0x10");
}

#[test]
fn hex_of_the_largest_number() {
    assert_eq!(hex(u64::MAX), "0xffffffffffffffff");
}

#[test]
fn hex_agrees_with_the_standard_rendering() {
    let mut n: u64 = 0;
    while n < 3000 {
        assert_eq!(hex(n), format!("{:#01x}", n));
        n += 1;
    }
    let mut m: u64 = 1;
    while m < u64::MAX / 5 {
        assert_eq!(hex(m), format!("{:#01x}", m));
        m *= 5;
    }
}

#[test]
fn prefix_is_found_at_the_start_only() {
    assert!(has_prefix("fcn.00002000", "fcn."));
    assert!(has_prefix("fcn.", "fcn."));
    assert!(!has_prefix("fcn", "fcn."));
    assert!(!has_prefix("sym.fcn.1", "fcn."));
    assert!(!has_prefix("", "fcn."));
    assert!(!has_prefix("fcnx0000", "fcn."));
}

#[test]
fn empty_prefix_is_found_everywhere() {
    assert!(has_prefix("", ""));
    assert!(has_prefix("usleep", ""));
}

#[test]
fn prefix_goes_by_characters() {
    assert!(has_prefix("\u{e9}t\u{e9}", "\u{e9}t"));
    assert!(!has_prefix("\u{e9}t\u{e9}", "et"));
}
