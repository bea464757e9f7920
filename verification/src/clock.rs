//! The wall clock, read as milliseconds since the Unix epoch.

use core::time::Duration;
use std::time::{SystemTime, UNIX_EPOCH};
use vstd::prelude::*;

verus! {

/// `std::time::SystemTime`, a point in time as the system clock reports it.
#[verifier::external_type_specification]
#[verifier::external_body]
pub struct ExSystemTime(SystemTime);

/// `SystemTime::now` of the standard library: the current time. Nothing is
/// claimed of the value.
#[verifier::external_body]
fn system_time_now() -> SystemTime {
    SystemTime::now()
}

/// `SystemTime::duration_since` of the standard library, taken from the Unix
/// epoch: `None` where the clock stands before the epoch. Nothing is claimed
/// of the value.
#[verifier::external_body]
fn duration_since_epoch(time: &SystemTime) -> Option<Duration> {
    time.duration_since(UNIX_EPOCH).ok()
}

/// `Duration::as_millis` of the standard library: the whole milliseconds of a
/// duration. Nothing is claimed of the value.
#[verifier::external_body]
fn whole_millis(duration: &Duration) -> u128 {
    duration.as_millis()
}

/// The current time in milliseconds since the Unix epoch: the timestamp of
/// whatever the clock counts, 0 where the clock stands before the epoch.
pub fn now_unix_timestamp_millis() -> (stamp: i64)
    ensures
        exists|elapsed_millis: Option<u128>| stamp == #[trigger] timestamp_of(elapsed_millis),
{
    let now = system_time_now();
    let elapsed_millis = match duration_since_epoch(&now) {
        Some(elapsed) => Some(whole_millis(&elapsed)),
        None => None,
    };
    unix_timestamp_millis_of(elapsed_millis)
}

/// The timestamp made of the whole milliseconds that a clock counted since
/// the Unix epoch: that count, which is kept to the 64 bits of a timestamp
/// where it is larger; 0 where the clock stood before the epoch and counted
/// none.
pub open spec fn timestamp_of(elapsed_millis: Option<u128>) -> i64 {
    match elapsed_millis {
        Some(millis) => millis as i64,
        None => 0,
    }
}

/// The timestamp made of the whole milliseconds that a clock counted since
/// the Unix epoch; `None` stands for a clock that stood before the epoch.
pub fn unix_timestamp_millis_of(elapsed_millis: Option<u128>) -> (stamp: i64)
    ensures
        stamp == timestamp_of(elapsed_millis),
        elapsed_millis matches Some(millis) ==> (millis <= i64::MAX ==> stamp == millis),
        elapsed_millis is None ==> stamp == 0,
{
    match elapsed_millis {
        Some(millis) => {
            #[verifier::truncate]
            (millis as i64)
        },
        None => 0,
    }
}

} // verus!
