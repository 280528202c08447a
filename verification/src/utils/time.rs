//! Time of the cluster's clock.

use crate::error::{PinoError, CLOCK_UNAVAILABLE};
use vstd::prelude::*;

verus! {

/// Gets the current Unix timestamp. No clock is wired in, so every call
/// fails with `Custom(CLOCK_UNAVAILABLE)`.
pub fn current_timestamp() -> (r: Result<i64, PinoError>)
    ensures
        r == Err::<i64, PinoError>(PinoError::Custom(CLOCK_UNAVAILABLE)),
{
    Err(PinoError::Custom(CLOCK_UNAVAILABLE))
}

/// Tells whether `timestamp` lies before `now`.
pub fn is_before(timestamp: i64, now: i64) -> (r: bool)
    ensures
        r == (timestamp < now),
{
    timestamp < now
}

/// Checks if a timestamp is in the past; fails as [`current_timestamp`]
/// does.
pub fn is_past(timestamp: i64) -> (r: Result<bool, PinoError>)
    ensures
        r == Err::<bool, PinoError>(PinoError::Custom(CLOCK_UNAVAILABLE)),
{
    match current_timestamp() {
        Ok(current) => Ok(is_before(timestamp, current)),
        Err(error) => Err(error),
    }
}

/// Checks if a timestamp is in the future; fails as [`current_timestamp`]
/// does.
pub fn is_future(timestamp: i64) -> (r: Result<bool, PinoError>)
    ensures
        r == Err::<bool, PinoError>(PinoError::Custom(CLOCK_UNAVAILABLE)),
{
    match current_timestamp() {
        Ok(current) => Ok(is_before(current, timestamp)),
        Err(error) => Err(error),
    }
}

} // verus!
