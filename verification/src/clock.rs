//! The wall clock, read through the standard library.

use crate::timestamp::{representable, Timestamp};
use std::time::{Duration, SystemTime, SystemTimeError, UNIX_EPOCH};
use vstd::prelude::*;

verus! {

/// `std::time::SystemTime`, carried through as it is.
#[verifier::external_type_specification]
#[verifier::external_body]
pub struct ExSystemTime(SystemTime);

/// `std::time::SystemTimeError`, carried through as it is.
#[verifier::external_type_specification]
#[verifier::external_body]
pub struct ExSystemTimeError(SystemTimeError);

/// Calls `SystemTime::now`. Trusted; nothing is claimed of the reading.
#[verifier::external_body]
fn system_now() -> SystemTime {
    SystemTime::now()
}

/// Calls `SystemTime::duration_since` with `UNIX_EPOCH`: the distance from
/// the epoch, as an error when the reading lies before it. Trusted; nothing
/// is claimed of the result.
#[verifier::external_body]
fn since_epoch(t: &SystemTime) -> Result<Duration, SystemTimeError> {
    t.duration_since(UNIX_EPOCH)
}

/// Calls `SystemTimeError::duration`: how far before the epoch the reading
/// lies. Trusted; nothing is claimed of the result.
#[verifier::external_body]
fn distance_before(e: &SystemTimeError) -> Duration {
    e.duration()
}

/// Calls `Duration::as_secs`. Trusted; nothing is claimed of the result.
#[verifier::external_body]
fn whole_seconds(d: &Duration) -> u64 {
    d.as_secs()
}

/// Calls `Duration::subsec_nanos`. Trusted; nothing is claimed of the
/// result.
#[verifier::external_body]
fn nanos_beyond(d: &Duration) -> u32 {
    d.subsec_nanos()
}

/// The current time on the wall clock. A reading that a `Timestamp` cannot
/// hold comes back as the nearest instant that it can.
pub fn current_time() -> (now: Timestamp)
    ensures
        representable(now@),
{
    let reading = system_now();
    match since_epoch(&reading) {
        Ok(d) => Timestamp::from_epoch_offset(false, whole_seconds(&d), nanos_beyond(&d)),
        Err(e) => {
            let d = distance_before(&e);
            Timestamp::from_epoch_offset(true, whole_seconds(&d), nanos_beyond(&d))
        },
    }
}

} // verus!
