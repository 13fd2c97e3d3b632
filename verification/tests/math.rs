use amm_2023::errors::AmmError;
use amm_2023::math::{checked_add_u64, checked_sub_u64, mul_div_ceil, mul_div_floor, wide_mul};

#[test]
fn wide_mul_is_exact() {
    assert_eq!(wide_mul(0, 17), 0);
    assert_eq!(wide_mul(3, 5), 15);
    let two_to_32: u64 = 1 << 32;
    assert_eq!(wide_mul(two_to_32, two_to_32), 1u128 << 64);
    assert_eq!(
        wide_mul(u64::MAX, u64::MAX),
        (u64::MAX as u128) * (u64::MAX as u128)
    );
}

#[test]
fn checked_add_detects_overflow() {
    assert_eq!(checked_add_u64(2, 3), Ok(5));
    assert_eq!(checked_add_u64(u64::MAX, 0), Ok(u64::MAX));
    assert_eq!(checked_add_u64(u64::MAX, 1), Err(AmmError::Overflow));
    assert_eq!(checked_add_u64(1, u64::MAX), Err(AmmError::Overflow));
}

#[test]
fn checked_sub_detects_underflow() {
    assert_eq!(checked_sub_u64(5, 3), Ok(2));
    assert_eq!(checked_sub_u64(5, 5), Ok(0));
    assert_eq!(checked_sub_u64(4, 5), Err(AmmError::Underflow));
}

#[test]
fn mul_div_rounding_directions() {
    assert_eq!(mul_div_floor(10, 10, 3), Ok(33));
    assert_eq!(mul_div_ceil(10, 10, 3), Ok(34));
    // An exact quotient rounds the same way in both directions.
    assert_eq!(mul_div_floor(10, 9, 3), Ok(30));
    assert_eq!(mul_div_ceil(10, 9, 3), Ok(30));
    assert_eq!(mul_div_floor(0, 10, 3), Ok(0));
    assert_eq!(mul_div_ceil(0, 10, 3), Ok(0));
}

#[test]
fn mul_div_detects_overflow() {
    assert_eq!(mul_div_floor(u64::MAX, u64::MAX, 1), Err(AmmError::Overflow));
    assert_eq!(mul_div_ceil(u64::MAX, 2, 1), Err(AmmError::Overflow));
    // The 128-bit intermediate keeps a large product safe when the divisor
    // brings the quotient back into range.
    assert_eq!(mul_div_floor(u64::MAX, u64::MAX, u64::MAX), Ok(u64::MAX));
}
