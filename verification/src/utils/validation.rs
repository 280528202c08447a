//! Checks on arguments.

use crate::error::{PinoError, EMPTY_SLICE, NOT_ASCII, OUT_OF_RANGE};
use vstd::prelude::*;

verus! {

/// Every byte is below 128.
pub open spec fn all_ascii(bytes: Seq<u8>) -> bool {
    forall|i: int| 0 <= i < bytes.len() ==> bytes[i] < 128
}

/// Every byte is zero.
pub open spec fn all_zero(bytes: Seq<u8>) -> bool {
    forall|i: int| 0 <= i < bytes.len() ==> bytes[i] == 0
}

/// Validates that a public key is not the default (all zeros).
pub fn validate_not_default(pubkey: &[u8; 32]) -> (r: Result<(), PinoError>)
    ensures
        !all_zero(pubkey@) ==> r == Ok::<(), PinoError>(()),
        all_zero(pubkey@) ==> r == Err::<(), PinoError>(PinoError::InvalidProgramId),
{
    let mut i: usize = 0;
    while i < 32
        invariant
            i <= 32,
            forall|j: int| 0 <= j < i ==> pubkey@[j] == 0,
        decreases 32 - i,
    {
        if pubkey[i] != 0 {
            return Ok(());
        }
        i += 1;
    }
    Err(PinoError::InvalidProgramId)
}

/// Validates that a number is within a range, both ends included.
pub fn validate_range(value: u64, min: u64, max: u64) -> (r: Result<(), PinoError>)
    ensures
        min <= value <= max ==> r == Ok::<(), PinoError>(()),
        !(min <= value <= max) ==> r == Err::<(), PinoError>(PinoError::Custom(OUT_OF_RANGE)),
{
    if value < min || value > max {
        return Err(PinoError::Custom(OUT_OF_RANGE));
    }
    Ok(())
}

/// Validates that a slice is not empty.
pub fn validate_not_empty<T>(slice: &[T]) -> (r: Result<(), PinoError>)
    ensures
        slice@.len() > 0 ==> r == Ok::<(), PinoError>(()),
        slice@.len() == 0 ==> r == Err::<(), PinoError>(PinoError::Custom(EMPTY_SLICE)),
{
    if slice.len() == 0 {
        return Err(PinoError::Custom(EMPTY_SLICE));
    }
    Ok(())
}

/// Validates that a string contains only ASCII characters.
pub fn validate_ascii(bytes: &[u8]) -> (r: Result<(), PinoError>)
    ensures
        all_ascii(bytes@) ==> r == Ok::<(), PinoError>(()),
        !all_ascii(bytes@) ==> r == Err::<(), PinoError>(PinoError::Custom(NOT_ASCII)),
{
    let mut i: usize = 0;
    while i < bytes.len()
        invariant
            i <= bytes@.len(),
            forall|j: int| 0 <= j < i ==> bytes@[j] < 128,
        decreases bytes@.len() - i,
    {
        if bytes[i] >= 128 {
            return Err(PinoError::Custom(NOT_ASCII));
        }
        i += 1;
    }
    Ok(())
}

} // verus!
