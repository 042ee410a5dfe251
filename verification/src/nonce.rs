//! The nonce source: the current time in milliseconds since the Unix
//! epoch, used only to make successive protection markers distinct. The
//! suffix it produces carries no meaning and is never parsed back.
use vstd::prelude::*;

use crate::ProtectError;

verus! {

/// The system clock's time type, opaque to the library: a value of it is
/// only ever carried from one trusted call to the next.
#[verifier::external_type_specification]
#[verifier::external_body]
pub struct ExSystemTime(std::time::SystemTime);

/// Relies on std::time::SystemTime::now for the current wall-clock time.
/// Nothing can be promised of a clock reading.
#[verifier::external_body]
fn system_time_now() -> std::time::SystemTime {
    std::time::SystemTime::now()
}

/// Relies on std::time::SystemTime::duration_since, measured against the
/// Unix epoch: per its documentation it returns Ok exactly when the time
/// is not earlier than the epoch, and Err otherwise; as_millis converts
/// the duration. Nothing can be promised of the value.
#[verifier::external_body]
fn millis_since_epoch(t: &std::time::SystemTime) -> Option<u128> {
    t.duration_since(std::time::SystemTime::UNIX_EPOCH).ok().map(|d| d.as_millis())
}

/// A fresh nonce: the clock's milliseconds since the Unix epoch. Fails
/// only when the clock reads a time before the epoch.
pub fn get_nonce() -> (r: Result<u128, ProtectError>)
    ensures
        r matches Err(e) ==> e == ProtectError::TimeError,
{
    let t = system_time_now();
    match millis_since_epoch(&t) {
        Some(ms) => Ok(ms),
        None => Err(ProtectError::TimeError),
    }
}

} // verus!
