//! Exact-value tests of the fixed-point arithmetic.

use vault::errors::ArithmeticError;
use vault::fixed_point::FixedPoint;
use vault::uint256::Uint256;

const E18: u128 = 1_000_000_000_000_000_000;

#[test]
fn add_exact() {
    let a = FixedPoint::from_u128(3 * E18 / 2, 18);
    let b = FixedPoint::from_u128(E18 / 4, 18);
    let r = a.add(&b).unwrap();
    assert_eq!(r.raw.hi, 0);
    assert_eq!(r.raw.lo, 7 * E18 / 4);
    assert_eq!(r.decimals, 18);
}

#[test]
fn sub_exact_and_underflow() {
    let a = FixedPoint::from_u128(3 * E18, 18);
    let b = FixedPoint::from_u128(E18, 18);
    let r = a.sub(&b).unwrap();
    assert_eq!(r.raw.lo, 2 * E18);
    let under = b.sub(&a);
    assert!(matches!(under, Err(ArithmeticError::Underflow)));
}

#[test]
fn mul_exact() {
    // 1.5 * 2.0 == 3.0 at 18 decimals.
    let a = FixedPoint::from_u128(3 * E18 / 2, 18);
    let b = FixedPoint::from_u128(2 * E18, 18);
    let r = a.mul(&b).unwrap();
    assert_eq!(r.raw.hi, 0);
    assert_eq!(r.raw.lo, 3 * E18);
}

#[test]
fn mul_truncates() {
    // (1/10^18) * (1/10^18) truncates to zero.
    let tiny = FixedPoint::from_u128(1, 18);
    let r = tiny.mul(&tiny).unwrap();
    assert_eq!(r.raw.lo, 0);
    assert_eq!(r.raw.hi, 0);
}

#[test]
fn div_exact_and_by_zero() {
    let a = FixedPoint::from_u128(3 * E18, 18);
    let b = FixedPoint::from_u128(3 * E18 / 2, 18);
    let r = a.div(&b).unwrap();
    assert_eq!(r.raw.lo, 2 * E18);
    let zero = FixedPoint::from_u128(0, 18);
    assert!(matches!(a.div(&zero), Err(ArithmeticError::DivideByZero)));
}

#[test]
fn rescale_up_and_down() {
    let a = FixedPoint::from_u128(180 * 10_u128.pow(16), 16);
    let up = a.rescale(18).unwrap();
    assert_eq!(up.raw.lo, 180 * E18);
    assert_eq!(up.decimals, 18);
    let down = up.rescale(16).unwrap();
    assert_eq!(down.raw.lo, 180 * 10_u128.pow(16));
    assert_eq!(down.decimals, 16);
}

#[test]
fn rescale_truncates() {
    // 1.23 at 2 decimals, rescaled to 0 decimals, truncates to 1.
    let a = FixedPoint::from_u128(123, 2);
    let r = a.rescale(0).unwrap();
    assert_eq!(r.raw.lo, 1);
    assert_eq!(r.decimals, 0);
}

#[test]
fn from_units_scales() {
    let a = FixedPoint::from_units(180, 18).unwrap();
    assert_eq!(a.raw.hi, 0);
    assert_eq!(a.raw.lo, 180 * E18);
    assert_eq!(a.decimals, 18);
}

#[test]
fn raw_u128_round_trip() {
    let a = FixedPoint::from_u128(123_456_789, 18);
    assert_eq!(a.raw_u128(), 123_456_789);
}

#[test]
fn uint256_comparisons() {
    let small = Uint256::from_u128(5);
    let big = Uint256 { hi: 1, lo: 0 };
    assert!(small.lt(&big));
    assert!(!big.lt(&small));
    assert!(Uint256::zero().is_zero());
    assert!(!small.is_zero());
}

#[test]
fn blockchain_error_message() {
    let e = vault::errors::BlockchainError(String::from("node unreachable"));
    assert_eq!(e.message().as_str(), "node unreachable");
}
