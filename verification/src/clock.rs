//! The time of day.

use crate::limiter::signed_seconds;
use vstd::prelude::*;

verus! {

/// std's moment in time.
#[verifier::external_type_specification]
#[verifier::external_body]
pub struct ExSystemTime(std::time::SystemTime);

/// How long after the Unix epoch a moment is; none where it lies before it.
pub uninterp spec fn since_epoch(time: std::time::SystemTime) -> Option<std::time::Duration>;

/// The whole seconds of a duration.
pub uninterp spec fn whole_seconds(duration: std::time::Duration) -> u64;

/// `SystemTime::now`: the moment of the call. Nothing is claimed of it.
pub assume_specification[ std::time::SystemTime::now ]() -> (now: std::time::SystemTime)
;

/// `SystemTime::duration_since` the Unix epoch: the duration between them, where the moment is
/// not earlier.
#[verifier::external_body]
fn elapsed_since_epoch(time: &std::time::SystemTime) -> (elapsed: Option<std::time::Duration>)
    ensures
        elapsed == since_epoch(*time),
{
    time.duration_since(std::time::UNIX_EPOCH).ok()
}

/// `Duration::as_secs`: the whole seconds of the duration.
#[verifier::external_body]
fn duration_seconds(duration: &std::time::Duration) -> (seconds: u64)
    ensures
        seconds == whole_seconds(*duration),
{
    duration.as_secs()
}

/// The time stamp of a moment: its seconds after the Unix epoch, zero for a moment before it.
pub open spec fn timestamp_at(time: std::time::SystemTime) -> i64 {
    timestamp_for(
        match since_epoch(time) {
            Some(elapsed) => Some(whole_seconds(elapsed)),
            None => None,
        },
    )
}

/// The time stamp for a number of seconds after the Unix epoch.
pub open spec fn timestamp_for(seconds: Option<u64>) -> i64 {
    match seconds {
        Some(s) => signed_seconds(s),
        None => 0,
    }
}

/// The time stamp for a number of seconds after the Unix epoch.
pub fn timestamp_from_seconds(seconds: Option<u64>) -> (timestamp: i64)
    ensures
        timestamp == timestamp_for(seconds),
{
    match seconds {
        Some(s) => #[verifier::truncate]
        (s as i64),
        None => 0,
    }
}

/// The time stamp of the moment of the call.
pub fn unix_timestamp() -> (timestamp: i64)
    ensures
        exists|time: std::time::SystemTime| timestamp == #[trigger] timestamp_at(time),
{
    let now = std::time::SystemTime::now();
    let seconds = match elapsed_since_epoch(&now) {
        Some(elapsed) => Some(duration_seconds(&elapsed)),
        None => None,
    };
    let timestamp: i64 = timestamp_from_seconds(seconds);
    assert(timestamp == timestamp_at(now));
    timestamp
}

/// The time stamp of a moment is its seconds after the epoch, and zero before it.
pub proof fn law_time_stamps_count_seconds(time: std::time::SystemTime, seconds: u64)
    ensures
        seconds <= i64::MAX ==> timestamp_for(Some(seconds)) == seconds,
        timestamp_for(None) == 0,
        since_epoch(time) is None ==> timestamp_at(time) == 0,
        since_epoch(time) is Some && whole_seconds(since_epoch(time)->0) <= i64::MAX
            ==> timestamp_at(time) == whole_seconds(since_epoch(time)->0),
{
}

} // verus!
