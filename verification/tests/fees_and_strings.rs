use brick::utils::{get_32_bytes_from_string, get_64_bytes_from_string, get_withdraw_amounts};
use brick::ErrorCode;

#[test]
fn fee_split_basis_points() {
    let (fee, seller) = get_withdraw_amounts(250, 10000).unwrap();
    assert_eq!(fee, 250);
    assert_eq!(seller, 9750);
    assert_eq!(fee + seller, 10000);
}

#[test]
fn fee_split_zero_fee() {
    let (fee, seller) = get_withdraw_amounts(0, 10000).unwrap();
    assert_eq!(fee, 0);
    assert_eq!(seller, 10000);
}

#[test]
fn fee_split_full_fee() {
    let (fee, seller) = get_withdraw_amounts(10000, 12345).unwrap();
    assert_eq!(fee, 12345);
    assert_eq!(seller, 0);
}

#[test]
fn fee_split_rounds_down() {
    let (fee, seller) = get_withdraw_amounts(250, 99).unwrap();
    assert_eq!(fee, 2);
    assert_eq!(seller, 97);
    assert_eq!(fee + seller, 99);
}

#[test]
fn fee_split_largest_values() {
    let (fee, seller) = get_withdraw_amounts(10000, u32::MAX).unwrap();
    assert_eq!(fee, u32::MAX as u64);
    assert_eq!(seller, 0);
}

#[test]
fn fee_over_denominator_rejected() {
    let r = get_withdraw_amounts(20000, 10000);
    assert_eq!(r.unwrap_err(), ErrorCode::NumericalOverflow);
}

#[test]
fn pad_32_short() {
    let data = get_32_bytes_from_string("abc".to_string()).unwrap();
    assert_eq!(data.len(), 32);
    assert_eq!(&data[..3], b"abc");
    assert!(data[3..].iter().all(|&b| b == b' '));
}

#[test]
fn pad_32_empty() {
    let data = get_32_bytes_from_string(String::new()).unwrap();
    assert_eq!(data, vec![b' '; 32]);
}

#[test]
fn pad_32_exact() {
    let s = "a".repeat(32);
    let data = get_32_bytes_from_string(s.clone()).unwrap();
    assert_eq!(data, s.as_bytes().to_vec());
}

#[test]
fn pad_32_too_long() {
    let r = get_32_bytes_from_string("a".repeat(33));
    assert_eq!(r.unwrap_err(), ErrorCode::StringTooLong);
}

#[test]
fn pad_32_counts_bytes_not_chars() {
    // Eleven four-byte characters occupy 44 bytes, over the 32-byte budget.
    let s = "\u{1F600}".repeat(11);
    assert_eq!(s.chars().count(), 11);
    let r = get_32_bytes_from_string(s);
    assert_eq!(r.unwrap_err(), ErrorCode::StringTooLong);
}

#[test]
fn pad_64_short() {
    let data = get_64_bytes_from_string("hello world".to_string()).unwrap();
    assert_eq!(data.len(), 64);
    assert_eq!(&data[..11], b"hello world");
    assert!(data[11..].iter().all(|&b| b == b' '));
}

#[test]
fn pad_64_too_long() {
    let r = get_64_bytes_from_string("m".repeat(65));
    assert_eq!(r.unwrap_err(), ErrorCode::StringTooLong);
}
