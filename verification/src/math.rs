//! Overflow-checked fixed-point arithmetic used by every other component.
//!
//! All value math runs through `mul_div`, which computes `floor(a * b / c)`
//! over a 128-bit intermediate, and through checked balance addition and
//! subtraction. Nothing here wraps silently: every step that would leave the
//! representable range is reported as an error.

use vstd::prelude::*;

use crate::errors::VaultError;

verus! {

/// What `mul_div` returns: `floor(a * b / c)` as a 64-bit value, or
/// `ArithmeticOverflow` when the intermediate product leaves the 128-bit
/// range, when `c` is zero, or when the quotient does not fit in 64 bits.
pub open spec fn mul_div_spec(a: u128, b: u128, c: u128) -> Result<u64, VaultError> {
    if a * b > u128::MAX {
        Err(VaultError::ArithmeticOverflow)
    } else if c == 0 {
        Err(VaultError::ArithmeticOverflow)
    } else if a * b / (c as int) > u64::MAX {
        Err(VaultError::ArithmeticOverflow)
    } else {
        Ok((a * b / (c as int)) as u64)
    }
}

/// Computes `floor(a * b / c)` with a wide intermediate, refusing to wrap.
pub fn mul_div(a: u128, b: u128, c: u128) -> (r: Result<u64, VaultError>)
    ensures
        r == mul_div_spec(a, b, c),
{
    match a.checked_mul(b) {
        Some(product) => match product.checked_div(c) {
            Some(quotient) => {
                if quotient <= u64::MAX as u128 {
                    Ok(quotient as u64)
                } else {
                    Err(VaultError::ArithmeticOverflow)
                }
            },
            None => Err(VaultError::ArithmeticOverflow),
        },
        None => Err(VaultError::ArithmeticOverflow),
    }
}

/// What checked balance addition returns: the exact sum, or
/// `ArithmeticOverflow` when it does not fit in 64 bits.
pub open spec fn checked_add_spec(a: u64, b: u64) -> Result<u64, VaultError> {
    if a + b > u64::MAX {
        Err(VaultError::ArithmeticOverflow)
    } else {
        Ok((a + b) as u64)
    }
}

/// Adds two balances, refusing to wrap.
pub fn checked_add(a: u64, b: u64) -> (r: Result<u64, VaultError>)
    ensures
        r == checked_add_spec(a, b),
{
    match a.checked_add(b) {
        Some(sum) => Ok(sum),
        None => Err(VaultError::ArithmeticOverflow),
    }
}

/// What checked balance subtraction returns: the exact difference, or
/// `ArithmeticUnderflow` when it would go below zero.
pub open spec fn checked_sub_spec(a: u64, b: u64) -> Result<u64, VaultError> {
    if a - b < 0 {
        Err(VaultError::ArithmeticUnderflow)
    } else {
        Ok((a - b) as u64)
    }
}

/// Subtracts one balance from another, refusing to go below zero.
pub fn checked_sub(a: u64, b: u64) -> (r: Result<u64, VaultError>)
    ensures
        r == checked_sub_spec(a, b),
{
    match a.checked_sub(b) {
        Some(difference) => Ok(difference),
        None => Err(VaultError::ArithmeticUnderflow),
    }
}

} // verus!
