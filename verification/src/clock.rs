//! The system clock, read in whole milliseconds.

use std::time::{Duration, SystemTime, SystemTimeError};
use vstd::prelude::*;

verus! {

/// A reading of the system clock, carried through unread.
#[verifier::external_type_specification]
#[verifier::external_body]
pub struct ExSystemTime(SystemTime);

/// The error of `SystemTime::duration_since`, carried through unread.
#[verifier::external_type_specification]
#[verifier::external_body]
pub struct ExSystemTimeError(SystemTimeError);

/// Calls `SystemTime::now`. Nothing is known of the reading.
#[verifier::external_body]
fn system_now() -> SystemTime {
    SystemTime::now()
}

/// Calls `SystemTime::duration_since` with the epoch: the time elapsed
/// since then, or an error if the clock reads a time before it.
#[verifier::external_body]
fn since_epoch(time: &SystemTime) -> Result<Duration, SystemTimeError> {
    time.duration_since(std::time::UNIX_EPOCH)
}

/// Calls `Duration::as_millis`.
#[verifier::external_body]
fn whole_millis(duration: &Duration) -> u128 {
    duration.as_millis()
}

/// The current time in milliseconds since the epoch, zero where the clock
/// is set before it. Nothing more is known of a clock reading.
pub(crate) fn now_millis() -> u64 {
    let now = system_now();
    let elapsed = match since_epoch(&now) {
        Ok(elapsed) => {
            let millis: u128 = whole_millis(&elapsed);
            Some(millis)
        },
        Err(_) => None,
    };
    stamp_millis(elapsed)
}

/// The number of distinct stamps: a stamp holds 64 bits.
pub const STAMP_RANGE: u128 = 0x1_0000_0000_0000_0000;

/// The stamp for a clock reading, given as the milliseconds that have
/// elapsed since the epoch, or as `None` where the clock reads a time before
/// the epoch: the milliseconds reduced to 64 bits, and zero for `None`.
pub open spec fn stamp_of(elapsed: Option<u128>) -> u64 {
    match elapsed {
        Some(millis) => (millis % STAMP_RANGE) as u64,
        None => 0,
    }
}

/// The stamp for a clock reading.
pub fn stamp_millis(elapsed: Option<u128>) -> (stamp: u64)
    ensures
        stamp == stamp_of(elapsed),
{
    match elapsed {
        Some(millis) => (millis % STAMP_RANGE) as u64,
        None => 0,
    }
}

} // verus!
