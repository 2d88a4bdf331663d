//! The one place where the library reads the system clock.

use std::time::SystemTime;
use vstd::prelude::*;

verus! {

/// A point in time as the operating system reports it. The library carries
/// such a value from one call to the next and never looks inside.
#[verifier::external_type_specification]
#[verifier::external_body]
pub struct ExSystemTime(std::time::SystemTime);

/// Reads the system clock with `std::time::SystemTime::now`. Nothing is
/// claimed of the reading: two readings may differ in any way.
#[verifier::external_body]
fn system_time_now() -> (time: SystemTime) {
    SystemTime::now()
}

/// Measures `time` against `std::time::UNIX_EPOCH` with
/// `SystemTime::duration_since` and hands the whole seconds back, or `None`
/// where `time` lies before the epoch. Nothing more is claimed of the number.
#[verifier::external_body]
fn seconds_since_epoch(time: &SystemTime) -> (seconds: Option<u64>) {
    match time.duration_since(std::time::UNIX_EPOCH) {
        Ok(elapsed) => Some(elapsed.as_secs()),
        Err(_) => None,
    }
}

/// The current time in seconds since the epoch: what [`unix_seconds_of`]
/// makes of a reading of the clock. Of the reading itself nothing is known.
pub fn current_unix_seconds() -> (now: u64) {
    let time = system_time_now();
    unix_seconds_of(seconds_since_epoch(&time))
}

/// What a reading of the clock counts as: its seconds, and zero for a clock
/// that stands before the epoch.
pub open spec fn seconds_of_reading(reading: Option<u64>) -> u64 {
    match reading {
        Some(seconds) => seconds,
        None => 0,
    }
}

/// Turns a reading of the clock into seconds since the epoch. A clock that
/// stands before the epoch reads as zero.
pub fn unix_seconds_of(reading: Option<u64>) -> (now: u64)
    ensures
        now == seconds_of_reading(reading),
{
    match reading {
        Some(seconds) => seconds,
        None => 0,
    }
}

} // verus!
