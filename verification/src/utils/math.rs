//! Arithmetic that reports overflow instead of wrapping.

use crate::error::PinoError;
use vstd::prelude::*;

verus! {

/// `amount * numerator / denominator`, as far as the product fits in 64
/// bits and the denominator is not zero.
pub open spec fn scaled(amount: u64, numerator: u64, denominator: u64) -> Option<u64> {
    if amount * numerator > u64::MAX || denominator == 0 {
        None
    } else {
        Some(((amount * numerator) / (denominator as int)) as u64)
    }
}

/// Safely adds two numbers, returning an error on overflow.
pub fn safe_add(a: u64, b: u64) -> (r: Result<u64, PinoError>)
    ensures
        a + b <= u64::MAX ==> r == Ok::<u64, PinoError>((a + b) as u64),
        a + b > u64::MAX ==> r == Err::<u64, PinoError>(PinoError::ArithmeticOverflow),
{
    match a.checked_add(b) {
        Some(sum) => Ok(sum),
        None => Err(PinoError::ArithmeticOverflow),
    }
}

/// Safely subtracts two numbers, returning an error on underflow.
pub fn safe_sub(a: u64, b: u64) -> (r: Result<u64, PinoError>)
    ensures
        a >= b ==> r == Ok::<u64, PinoError>((a - b) as u64),
        a < b ==> r == Err::<u64, PinoError>(PinoError::ArithmeticOverflow),
{
    match a.checked_sub(b) {
        Some(difference) => Ok(difference),
        None => Err(PinoError::ArithmeticOverflow),
    }
}

/// Safely multiplies two numbers, returning an error on overflow.
pub fn safe_mul(a: u64, b: u64) -> (r: Result<u64, PinoError>)
    ensures
        a * b <= u64::MAX ==> r == Ok::<u64, PinoError>((a * b) as u64),
        a * b > u64::MAX ==> r == Err::<u64, PinoError>(PinoError::ArithmeticOverflow),
{
    match a.checked_mul(b) {
        Some(product) => Ok(product),
        None => Err(PinoError::ArithmeticOverflow),
    }
}

/// Safely divides two numbers, returning an error on division by zero.
pub fn safe_div(a: u64, b: u64) -> (r: Result<u64, PinoError>)
    ensures
        b != 0 ==> r == Ok::<u64, PinoError>(a / b),
        b == 0 ==> r == Err::<u64, PinoError>(PinoError::ArithmeticOverflow),
{
    match a.checked_div(b) {
        Some(quotient) => Ok(quotient),
        None => Err(PinoError::ArithmeticOverflow),
    }
}

/// Calculates percentage with precision: `amount * percent / precision`,
/// rounded down.
pub fn percentage(amount: u64, percent: u64, precision: u64) -> (r: Result<u64, PinoError>)
    ensures
        r == match scaled(amount, percent, precision) {
            Some(share) => Ok::<u64, PinoError>(share),
            None => Err::<u64, PinoError>(PinoError::ArithmeticOverflow),
        },
{
    match safe_mul(amount, percent) {
        Ok(product) => safe_div(product, precision),
        Err(error) => Err(error),
    }
}

/// Calculates proportional amount: `amount * numerator / denominator`,
/// rounded down.
pub fn proportional(amount: u64, numerator: u64, denominator: u64) -> (r: Result<u64, PinoError>)
    ensures
        r == match scaled(amount, numerator, denominator) {
            Some(share) => Ok::<u64, PinoError>(share),
            None => Err::<u64, PinoError>(PinoError::ArithmeticOverflow),
        },
{
    match safe_mul(amount, numerator) {
        Ok(product) => safe_div(product, denominator),
        Err(error) => Err(error),
    }
}

} // verus!
