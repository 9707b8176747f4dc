use carbon_pay::text::{decimal, with_address, with_decimal};
use carbon_pay::Address;

#[test]
fn decimal_of_single_digits() {
    assert_eq!(decimal(0), "0");
    assert_eq!(decimal(7), "7");
    assert_eq!(decimal(9), "9");
}

#[test]
fn decimal_of_longer_numbers() {
    assert_eq!(decimal(10), "10");
    assert_eq!(decimal(150), "150");
    assert_eq!(decimal(1_000_000), "1000000");
    assert_eq!(decimal(1234567890), "1234567890");
    assert_eq!(decimal(u64::MAX), "18446744073709551615");
}

#[test]
fn decimal_agrees_with_the_standard_library() {
    let mut n: u64 = 1;
    while n < u64::MAX / 7 {
        assert_eq!(decimal(n), n.to_string());
        assert_eq!(decimal(n - 1), (n - 1).to_string());
        n *= 7;
    }
}

#[test]
fn with_decimal_appends_the_number() {
    assert_eq!(with_decimal("CRBN-", 42), "CRBN-42");
    assert_eq!(with_decimal("", 0), "0");
}

#[test]
fn with_address_appends_base_58() {
    assert_eq!(
        with_address("id/", &Address::new([0u8; 32])),
        "id/11111111111111111111111111111111"
    );
    assert_eq!(
        with_address("", &Address::new([1u8; 32])),
        "4vJ9JU1bJJE96FWSJKvHsmmFADCg4gpZQff4P3bkLKi"
    );
    assert_eq!(
        with_address("", &Address::new([255u8; 32])),
        "JEKNVnkbo3jma5nREBBJCDoXFVeKkD56V3xKrvRmWxFG"
    );
    let mut counting = [0u8; 32];
    for (i, byte) in counting.iter_mut().enumerate() {
        *byte = i as u8;
    }
    assert_eq!(
        with_address("", &Address::new(counting)),
        "1thX6LZfHDZZKUs92febYZhYRcXddmzfzF2NvTkPNE"
    );
}
