//! Arithmetic safety layer.
//!
//! Every balance and counter mutation in the protocol goes through these
//! checked operations; nothing ever silently wraps. A tripped guard
//! surfaces as [`ErrorCode::NumericalOverflow`].

use vstd::prelude::*;

use crate::errors::ErrorCode;

verus! {

/// Checked addition on ledger quantities.
pub fn checked_add_u64(a: u64, b: u64) -> (r: Result<u64, ErrorCode>)
    ensures
        match r {
            Ok(v) => v == a + b,
            Err(e) => e == ErrorCode::NumericalOverflow && a + b > u64::MAX,
        },
{
    match a.checked_add(b) {
        Some(v) => Ok(v),
        None => Err(ErrorCode::NumericalOverflow),
    }
}

/// Checked subtraction on ledger quantities; underflow is a guard trip,
/// never a wrap.
pub fn checked_sub_u64(a: u64, b: u64) -> (r: Result<u64, ErrorCode>)
    ensures
        match r {
            Ok(v) => v == a - b,
            Err(e) => e == ErrorCode::NumericalOverflow && a < b,
        },
{
    match a.checked_sub(b) {
        Some(v) => Ok(v),
        None => Err(ErrorCode::NumericalOverflow),
    }
}

/// Checked multiplication on ledger quantities.
pub fn checked_mul_u64(a: u64, b: u64) -> (r: Result<u64, ErrorCode>)
    ensures
        match r {
            Ok(v) => v == a * b,
            Err(e) => e == ErrorCode::NumericalOverflow && a * b > u64::MAX,
        },
{
    match a.checked_mul(b) {
        Some(v) => Ok(v),
        None => Err(ErrorCode::NumericalOverflow),
    }
}

} // verus!
