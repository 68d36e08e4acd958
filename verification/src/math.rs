//! Checked arithmetic on balances: each operation either gives the exact
//! result or reports that it left the range of `u128`.
use vstd::prelude::*;
use crate::error::{arithmetic_error, ContractError};
use crate::u256::U256;

verus! {

/// `x` is representable as a `u128`.
pub open spec fn fits(x: int) -> bool {
    0 <= x <= u128::MAX
}

/// Exact sum.
pub fn c_add(a: u128, b: u128) -> (r: Result<u128, ContractError>)
    ensures
        match r {
            Ok(v) => v == a + b,
            Err(e) => e == ContractError::AddOverflow && !fits(a + b),
        },
{
    match a.checked_add(b) {
        Some(v) => Ok(v),
        None => Err(ContractError::AddOverflow),
    }
}

/// Exact difference.
pub fn c_sub(a: u128, b: u128) -> (r: Result<u128, ContractError>)
    ensures
        match r {
            Ok(v) => v == a - b,
            Err(e) => e == ContractError::SubOverflow && a < b,
        },
{
    match a.checked_sub(b) {
        Some(v) => Ok(v),
        None => Err(ContractError::SubOverflow),
    }
}

/// Exact product.
pub fn c_mul(a: u128, b: u128) -> (r: Result<u128, ContractError>)
    ensures
        match r {
            Ok(v) => v == a * b,
            Err(e) => e == ContractError::MulOverflow && !fits(a * b),
        },
{
    match a.checked_mul(b) {
        Some(v) => Ok(v),
        None => Err(ContractError::MulOverflow),
    }
}

/// Floor quotient.
pub fn c_div(a: u128, b: u128) -> (r: Result<u128, ContractError>)
    ensures
        match r {
            Ok(v) => b > 0 && v == a / b,
            Err(e) => e == ContractError::DivByZero && b == 0,
        },
{
    if b == 0 {
        Err(ContractError::DivByZero)
    } else {
        Ok(a / b)
    }
}

/// Floor of `a * b / c` computed with a 256-bit intermediate.
pub open spec fn mul_div_spec(a: int, b: int, c: int) -> Option<int> {
    if c == 0 || !fits((a * b) / c) {
        None
    } else {
        Some((a * b) / c)
    }
}

/// `a * b / c` with a 256-bit product.
pub fn mul_div(a: u128, b: u128, c: u128) -> (r: Result<u128, ContractError>)
    ensures
        match r {
            Ok(v) => mul_div_spec(a as int, b as int, c as int) == Some(v as int),
            Err(e) => mul_div_spec(a as int, b as int, c as int) is None
                && arithmetic_error(e),
        },
{
    let p = U256::from_u128(a).checked_mul(U256::from_u128(b));
    let p = match p {
        Some(p) => p,
        None => {
            proof {
                assert(a * b < crate::u256::b256()) by (nonlinear_arith)
                    requires a < crate::u256::b128(), b < crate::u256::b128();
            }
            return Err(ContractError::Overflow);
        },
    };
    let q = match p.checked_div_u128(c) {
        Some(q) => q,
        None => return Err(ContractError::DivByZero),
    };
    match q.to_u128() {
        Some(v) => Ok(v),
        None => Err(ContractError::Overflow),
    }
}

/// Converts a 256-bit result back to `u128`.
pub fn narrow(x: U256) -> (r: Result<u128, ContractError>)
    ensures
        match r {
            Ok(v) => v == x@,
            Err(e) => e == ContractError::Overflow && !fits(x@ as int),
        },
{
    match x.to_u128() {
        Some(v) => Ok(v),
        None => Err(ContractError::Overflow),
    }
}

/// 256-bit product, failing at 2^256.
pub fn w_mul(a: U256, b: U256) -> (r: Result<U256, ContractError>)
    ensures
        match r {
            Ok(v) => v@ == a@ * b@,
            Err(e) => e == ContractError::MulOverflow && a@ * b@ >= crate::u256::b256(),
        },
{
    match a.checked_mul(b) {
        Some(v) => Ok(v),
        None => Err(ContractError::MulOverflow),
    }
}

/// 256-bit quotient by a 128-bit divisor.
pub fn w_div(a: U256, b: u128) -> (r: Result<U256, ContractError>)
    ensures
        match r {
            Ok(v) => b > 0 && v@ == a@ / (b as nat),
            Err(e) => e == ContractError::DivByZero && b == 0,
        },
{
    match a.checked_div_u128(b) {
        Some(v) => Ok(v),
        None => Err(ContractError::DivByZero),
    }
}

/// 256-bit sum.
pub fn w_add(a: U256, b: U256) -> (r: Result<U256, ContractError>)
    ensures
        match r {
            Ok(v) => v@ == a@ + b@,
            Err(e) => e == ContractError::AddOverflow && a@ + b@ >= crate::u256::b256(),
        },
{
    match a.checked_add(b) {
        Some(v) => Ok(v),
        None => Err(ContractError::AddOverflow),
    }
}

/// 256-bit difference.
pub fn w_sub(a: U256, b: U256) -> (r: Result<U256, ContractError>)
    ensures
        match r {
            Ok(v) => v@ == a@ - b@,
            Err(e) => e == ContractError::SubOverflow && a@ < b@,
        },
{
    match a.checked_sub(b) {
        Some(v) => Ok(v),
        None => Err(ContractError::SubOverflow),
    }
}


/// Floor of `a * b * c / d`, failing when the product reaches 2^256, the
/// divisor is zero or the quotient leaves `u128`.
pub open spec fn mul3_div_spec(a: int, b: int, c: int, d: int) -> Option<int> {
    if a * b * c >= crate::u256::b256() || d == 0 || !fits((a * b * c) / d) {
        None
    } else {
        Some((a * b * c) / d)
    }
}

/// `a * b * c / d` with 256-bit intermediates.
pub fn mul3_div(a: u128, b: u128, c: u128, d: u128) -> (r: Result<u128, ContractError>)
    ensures
        match r {
            Ok(v) => mul3_div_spec(a as int, b as int, c as int, d as int) == Some(v as int),
            Err(e) => mul3_div_spec(a as int, b as int, c as int, d as int) is None
                && arithmetic_error(e),
        },
{
    let ab = match U256::from_u128(a).checked_mul(U256::from_u128(b)) {
        Some(p) => p,
        None => {
            proof {
                assert(a * b < crate::u256::b256()) by (nonlinear_arith)
                    requires a < crate::u256::b128(), b < crate::u256::b128();
            }
            return Err(ContractError::Overflow);
        },
    };
    let abc = w_mul(ab, U256::from_u128(c))?;
    let q = w_div(abc, d)?;
    narrow(q)
}

} // verus!
