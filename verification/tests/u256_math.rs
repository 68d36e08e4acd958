use oinstake::math::{mul3_div, mul_div};
use oinstake::u256::{wide_mul, U256};

#[test]
fn wide_mul_splits_into_halves() {
    let r = wide_mul(u128::MAX, 2);
    assert_eq!(r.hi, 1);
    assert_eq!(r.lo, u128::MAX - 1);
}

#[test]
fn mul_div_uses_a_wide_product() {
    let a: u128 = 1u128 << 100;
    let b: u128 = 1u128 << 100;
    let c: u128 = 1u128 << 90;
    assert_eq!(mul_div(a, b, c).unwrap(), 1u128 << 110);
    assert!(mul_div(1, 1, 0).is_err());
}

#[test]
fn mul3_div_exact_value() {
    assert_eq!(mul3_div(6, 7, 8, 3).unwrap(), 112);
}

#[test]
fn u256_checked_ops() {
    let x = U256::from_u128(u128::MAX);
    let s = x.checked_add(U256::from_u128(1)).unwrap();
    assert_eq!(s.hi, 1);
    assert_eq!(s.lo, 0);
    assert!(U256::zero().checked_sub(U256::from_u128(1)).is_none());
    let q = s.checked_div_u128(2).unwrap();
    assert_eq!(q.hi, 0);
    assert_eq!(q.lo, 1u128 << 127);
    assert!(s.to_u128().is_none());
}
