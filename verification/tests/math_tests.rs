use magic_trade::error::PlatformError;
use magic_trade::math::{
    checked_add, checked_add_i32, checked_add_i64, checked_as_u64, checked_ceil_div,
    checked_decimal_div, checked_decimal_mul, checked_div, checked_div_u128, checked_mul,
    checked_mul_u128, checked_pow, checked_pow_u128, checked_sub, checked_sub_i32, pow10_u128,
    saturating_sub_i64, scale_u128_to_exponent,
};

#[test]
fn checked_add_gives_the_sum_or_overflows() {
    assert_eq!(checked_add(2, 3), Ok(5));
    assert_eq!(checked_add(u64::MAX, 0), Ok(u64::MAX));
    assert_eq!(checked_add(u64::MAX, 1), Err(PlatformError::MathOverflow));
}

#[test]
fn checked_sub_gives_the_difference_or_overflows() {
    assert_eq!(checked_sub(5, 3), Ok(2));
    assert_eq!(checked_sub(3, 3), Ok(0));
    assert_eq!(checked_sub(3, 5), Err(PlatformError::MathOverflow));
}

#[test]
fn checked_mul_gives_the_product_or_overflows() {
    assert_eq!(checked_mul(6, 7), Ok(42));
    assert_eq!(checked_mul(1 << 32, 1 << 31), Ok(1 << 63));
    assert_eq!(checked_mul(1 << 32, 1 << 32), Err(PlatformError::MathOverflow));
}

#[test]
fn checked_div_rounds_down_and_refuses_zero() {
    assert_eq!(checked_div(7, 2), Ok(3));
    assert_eq!(checked_div(0, 2), Ok(0));
    assert_eq!(checked_div(7, 0), Err(PlatformError::MathOverflow));
}

#[test]
fn checked_exponent_arithmetic() {
    assert_eq!(checked_add_i32(-8, 3), Ok(-5));
    assert_eq!(checked_add_i32(i32::MAX, 1), Err(PlatformError::MathOverflow));
    assert_eq!(checked_sub_i32(-8, 3), Ok(-11));
    assert_eq!(checked_sub_i32(i32::MIN, 1), Err(PlatformError::MathOverflow));
    assert_eq!(checked_add_i64(1_700_000_000, 60), Ok(1_700_000_060));
    assert_eq!(checked_add_i64(i64::MAX, 1), Err(PlatformError::MathOverflow));
}

#[test]
fn saturating_sub_i64_stops_at_the_ends() {
    assert_eq!(saturating_sub_i64(1000, 300), 700);
    assert_eq!(saturating_sub_i64(i64::MAX, -1), i64::MAX);
    assert_eq!(saturating_sub_i64(i64::MIN, 1), i64::MIN);
    assert_eq!(saturating_sub_i64(-5, 7), -12);
}

#[test]
fn wide_arithmetic() {
    assert_eq!(checked_mul_u128(1 << 64, 1 << 63), Ok(1 << 127));
    assert_eq!(checked_mul_u128(1 << 64, 1 << 64), Err(PlatformError::MathOverflow));
    assert_eq!(checked_div_u128(100, 7), Ok(14));
    assert_eq!(checked_div_u128(100, 0), Err(PlatformError::MathOverflow));
    assert_eq!(checked_as_u64(u64::MAX as u128), Ok(u64::MAX));
    assert_eq!(checked_as_u64(u64::MAX as u128 + 1), Err(PlatformError::MathOverflow));
}

#[test]
fn ceil_div_rounds_up() {
    assert_eq!(checked_ceil_div(10, 5), Ok(2));
    assert_eq!(checked_ceil_div(11, 5), Ok(3));
    assert_eq!(checked_ceil_div(0, 5), Ok(0));
    assert_eq!(checked_ceil_div(1, 1_000_000_000), Ok(1));
    assert_eq!(checked_ceil_div(1, 0), Err(PlatformError::MathOverflow));
}

#[test]
fn checked_pow_gives_the_power_or_overflows() {
    assert_eq!(checked_pow(10, 0), Ok(1));
    assert_eq!(checked_pow(10, 6), Ok(1_000_000));
    assert_eq!(checked_pow(10, 19), Ok(10_000_000_000_000_000_000));
    assert_eq!(checked_pow(10, 20), Err(PlatformError::MathOverflow));
    assert_eq!(checked_pow(2, 63), Ok(1 << 63));
    assert_eq!(checked_pow(2, 64), Err(PlatformError::MathOverflow));
    assert_eq!(checked_pow(0, 0), Ok(1));
    assert_eq!(checked_pow(0, 5), Ok(0));
    assert_eq!(checked_pow(1, usize::MAX), Ok(1));
    assert_eq!(checked_pow_u128(10, 38), Ok(100_000_000_000_000_000_000_000_000_000_000_000_000));
    assert_eq!(checked_pow_u128(10, 39), Err(PlatformError::MathOverflow));
    assert_eq!(pow10_u128(9), 1_000_000_000);
}

#[test]
fn decimal_mul_scales_the_product() {
    // 5 tokens of 6 decimals at 100.00 (exponent -2), in millionths of a USD.
    assert_eq!(checked_decimal_mul(5_000_000, -6, 10_000, -2, -6), Ok(500_000_000));
    // The same product in whole USD.
    assert_eq!(checked_decimal_mul(5_000_000, -6, 10_000, -2, 0), Ok(500));
    // A target below both exponents multiplies.
    assert_eq!(checked_decimal_mul(3, 0, 7, 0, -2), Ok(2100));
    // Digits below the target are dropped.
    assert_eq!(checked_decimal_mul(1, 0, 199, -2, 0), Ok(1));
}

#[test]
fn decimal_mul_edges() {
    assert_eq!(checked_decimal_mul(0, -6, 10_000, -2, -6), Ok(0));
    assert_eq!(checked_decimal_mul(5, -6, 0, -2, -6), Ok(0));
    assert_eq!(checked_decimal_mul(u64::MAX, 0, 2, 0, 0), Err(PlatformError::MathOverflow));
    assert_eq!(checked_decimal_mul(1, 0, 1, 0, -20), Err(PlatformError::MathOverflow));
    assert_eq!(checked_decimal_mul(1, 0, 1, 0, -19), Ok(10_000_000_000_000_000_000));
    // More digits are dropped than the product can have.
    assert_eq!(checked_decimal_mul(u64::MAX, 0, u64::MAX, 0, 39), Ok(0));
    assert_eq!(checked_decimal_mul(u64::MAX, 0, u64::MAX, 0, 20), Ok(3_402_823_669_209_384_634));
    assert_eq!(checked_decimal_mul(7, i32::MAX, 7, i32::MAX, i32::MIN), Err(PlatformError::MathOverflow));
    assert_eq!(checked_decimal_mul(7, i32::MIN, 7, i32::MIN, i32::MAX), Ok(0));
}

#[test]
fn decimal_div_scales_the_quotient() {
    // 500 USD in millionths at 100.00 (exponent -2), in tokens of 6 decimals.
    assert_eq!(checked_decimal_div(500_000_000, -6, 10_000, -2, -6), Ok(5_000_000));
    // 1 USD at 3 USD per token, in tokens of 9 decimals.
    assert_eq!(checked_decimal_div(1_000_000, -6, 3, 0, -9), Ok(333_333_333));
    // A target above the quotient's exponent divides further.
    assert_eq!(checked_decimal_div(1_000_000, -6, 3, 0, -1), Ok(3));
    assert_eq!(checked_decimal_div(1_000_000, -6, 3, 0, 0), Ok(0));
}

#[test]
fn decimal_div_edges() {
    assert_eq!(checked_decimal_div(5, 0, 0, 0, 0), Err(PlatformError::MathOverflow));
    assert_eq!(checked_decimal_div(0, 0, 0, 0, 0), Err(PlatformError::MathOverflow));
    assert_eq!(checked_decimal_div(0, 0, 5, 0, 0), Ok(0));
    assert_eq!(checked_decimal_div(u64::MAX, 0, 1, 0, 0), Ok(u64::MAX));
    assert_eq!(checked_decimal_div(u64::MAX, 0, 1, 0, -1), Err(PlatformError::MathOverflow));
    assert_eq!(checked_decimal_div(1, 0, u64::MAX, 0, -39), Err(PlatformError::MathOverflow));
    assert_eq!(checked_decimal_div(1, 0, 10, 0, -20), Ok(10_000_000_000_000_000_000));
    assert_eq!(checked_decimal_div(u64::MAX, 0, 1, 0, 20), Ok(0));
    assert_eq!(checked_decimal_div(u64::MAX, 0, 1, 0, 19), Ok(1));
    assert_eq!(checked_decimal_div(9, i32::MIN, 1, i32::MAX, i32::MAX), Ok(0));
}

#[test]
fn scale_u128_moves_between_exponents() {
    assert_eq!(scale_u128_to_exponent(1_234_567, -6, -6), Ok(1_234_567));
    assert_eq!(scale_u128_to_exponent(1_234_567, -6, -3), Ok(1_234));
    assert_eq!(scale_u128_to_exponent(1_234_567, -6, -8), Ok(123_456_700));
    assert_eq!(scale_u128_to_exponent(1, 0, -38), Ok(100_000_000_000_000_000_000_000_000_000_000_000_000));
    assert_eq!(scale_u128_to_exponent(1, 0, -39), Err(PlatformError::MathOverflow));
    assert_eq!(scale_u128_to_exponent(0, 0, -39), Err(PlatformError::MathOverflow));
    assert_eq!(scale_u128_to_exponent(4, 0, -38), Err(PlatformError::MathOverflow));
    assert_eq!(scale_u128_to_exponent(1, 0, 39), Err(PlatformError::MathOverflow));
    assert_eq!(scale_u128_to_exponent(1, 0, 38), Ok(0));
    assert_eq!(scale_u128_to_exponent(1, i32::MIN, i32::MAX), Err(PlatformError::MathOverflow));
}
