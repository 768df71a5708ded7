//! Clock access for tracker timestamps.

use std::time::{Duration, SystemTime, SystemTimeError, UNIX_EPOCH};
use vstd::prelude::*;

verus! {

/// The system clock's current time.
#[verifier::external_type_specification]
#[verifier::external_body]
pub struct ExSystemTime(SystemTime);

/// Reported when a time lies before the instant it is measured from.
#[verifier::external_type_specification]
#[verifier::external_body]
pub struct ExSystemTimeError(SystemTimeError);

/// `SystemTime::now`; the clock's reading is not stated.
#[verifier::external_body]
fn system_now() -> SystemTime {
    SystemTime::now()
}

/// `SystemTime::duration_since(UNIX_EPOCH)`: an error when the clock reads a
/// time before the Unix epoch; the length itself is not stated.
#[verifier::external_body]
fn since_unix_epoch(time: &SystemTime) -> Result<Duration, SystemTimeError> {
    time.duration_since(UNIX_EPOCH)
}

/// `Duration::as_secs`: the whole seconds of a duration, which is not stated here.
#[verifier::external_body]
fn whole_seconds(duration: &Duration) -> u64 {
    duration.as_secs()
}

/// The Unix timestamp for what the clock reported: the whole seconds since
/// the epoch (`None` for a clock set before it, which gives zero), converted
/// with `as`.
pub fn unix_seconds(since_epoch: Option<u64>) -> (r: i64)
    ensures
        r == match since_epoch {
            Some(seconds) => seconds as i64,
            None => 0,
        },
{
    match since_epoch {
        Some(seconds) => seconds as i64,
        None => 0,
    }
}

/// Returns the current Unix timestamp in whole seconds.
///
/// A system clock before the Unix epoch yields zero.
pub fn now() -> (r: i64) {
    let since_epoch = match since_unix_epoch(&system_now()) {
        Ok(duration) => Some(whole_seconds(&duration)),
        Err(_) => None,
    };
    unix_seconds(since_epoch)
}

} // verus!
