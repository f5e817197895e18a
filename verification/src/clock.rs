//! The wall clock, read in whole seconds.

use vstd::prelude::*;
use std::time::{Duration, SystemTime, SystemTimeError, UNIX_EPOCH};

verus! {

/// `std::time::SystemTime`, a reading of the system clock. Its inside stays
/// hidden.
#[verifier::external_type_specification]
#[verifier::external_body]
pub struct ExSystemTime(SystemTime);

/// `std::time::SystemTimeError`, the error of a time that lies before the
/// time it is measured from. Its inside stays hidden.
#[verifier::external_type_specification]
#[verifier::external_body]
pub struct ExSystemTimeError(SystemTimeError);

/// Wraps `SystemTime::now`. Nothing is claimed about the reading: two reads
/// may give any two times.
#[verifier::external_body]
fn system_now() -> (time: SystemTime) {
    SystemTime::now()
}

/// Wraps `SystemTime::duration_since` with the Unix epoch as the earlier
/// time: the time that has passed since the epoch, or the error for a clock
/// that is set before it. Nothing is claimed about either.
#[verifier::external_body]
fn since_epoch(time: &SystemTime) -> (elapsed: Result<Duration, SystemTimeError>) {
    time.duration_since(UNIX_EPOCH)
}

/// Wraps `Duration::as_secs`: the whole seconds of a duration. Nothing is
/// claimed about the number.
#[verifier::external_body]
fn whole_seconds(elapsed: &Duration) -> (seconds: u64) {
    elapsed.as_secs()
}

/// Reads the system clock: the whole seconds that have passed since the Unix
/// epoch, or `None` where the clock is set before it.
pub(crate) fn now_ts() -> (t: Option<u64>) {
    let time = system_now();
    match since_epoch(&time) {
        Ok(elapsed) => Some(whole_seconds(&elapsed)),
        Err(_) => None,
    }
}

/// The clock in seconds since the Unix epoch. A clock set before the epoch
/// reads as zero.
pub(crate) fn unix_seconds() -> u64 {
    seconds_of_reading(now_ts())
}

/// The seconds that a reading of the clock stands for: the reading itself,
/// and zero for a clock that is set before the epoch.
pub open spec fn reading_seconds(reading: Option<u64>) -> u64 {
    match reading {
        Some(seconds) => seconds,
        None => 0,
    }
}

/// Turns a reading of the clock into seconds since the Unix epoch. A clock
/// set before the epoch, which gives no reading, counts as the epoch itself.
pub fn seconds_of_reading(reading: Option<u64>) -> (seconds: u64)
    ensures
        seconds == reading_seconds(reading),
{
    match reading {
        Some(seconds) => seconds,
        None => 0,
    }
}

} // verus!
