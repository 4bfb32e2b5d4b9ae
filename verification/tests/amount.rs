use cketh_bridge::amount::Amount;

#[test]
fn amount_prints_small_numbers_plainly() {
    assert_eq!(Amount::zero().to_string(), "0");
    assert_eq!(Amount::from_u128(1).to_string(), "1");
    assert_eq!(Amount::from_u128(999).to_string(), "999");
}

#[test]
fn amount_prints_groups_of_three() {
    assert_eq!(Amount::from_u128(1000).to_string(), "1_000");
    assert_eq!(Amount::from_u128(1234567).to_string(), "1_234_567");
    assert_eq!(Amount::from_u128(12345678).to_string(), "12_345_678");
    assert_eq!(
        Amount::from_u128(u128::MAX).to_string(),
        "340_282_366_920_938_463_463_374_607_431_768_211_455"
    );
}

#[test]
fn amount_reads_canonical_decimal_only() {
    assert!(Amount::from_decimal("0").is_some());
    assert!(Amount::from_decimal("10").is_some());
    assert!(Amount::from_decimal("").is_none());
    assert!(Amount::from_decimal("007").is_none());
    assert!(Amount::from_decimal("1_000").is_none());
    assert!(Amount::from_decimal("+1").is_none());
    assert!(Amount::from_decimal("12a").is_none());
    assert!(Amount::from_decimal("١٢").is_none());
}

#[test]
fn amount_is_of_any_size() {
    let text = "123456789012345678901234567890123456789012345678901234567890";
    let amount = Amount::from_decimal(text).unwrap();
    assert_eq!(amount.digits(), text.as_bytes().to_vec());
    assert_eq!(
        amount.to_string(),
        "123_456_789_012_345_678_901_234_567_890_123_456_789_012_345_678_901_234_567_890"
    );
}

#[test]
fn amount_digits_are_decimal() {
    assert_eq!(Amount::from_u128(0).digits(), b"0".to_vec());
    assert_eq!(Amount::from_u128(100).digits(), b"100".to_vec());
    assert_eq!(Amount::from_u128(9007199254740993).digits(), b"9007199254740993".to_vec());
}

#[test]
fn amount_equality_is_by_value() {
    let a = Amount::from_u128(100);
    let b = Amount::from_decimal("100").unwrap();
    assert!(a.equals(&b));
    assert!(!a.equals(&Amount::from_u128(101)));
    assert!(a.clone().equals(&a));
    assert!(Amount::from_u128(1).is_one());
    assert!(!Amount::from_u128(0).is_one());
    assert!(!Amount::from_u128(10).is_one());
    assert!(!Amount::from_u128(11).is_one());
}

#[test]
fn amount_agrees_with_candid_nat() {
    for n in [0u128, 1, 9, 10, 999, 1000, 123456, 1_000_000_000_000_000_000] {
        assert_eq!(Amount::from_u128(n).to_string(), candid::Nat::from(n).to_string());
    }
}
