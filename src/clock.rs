use vstd::prelude::*;
use std::time::{Duration, SystemTime, SystemTimeError};

verus! {

#[verifier::external_type_specification]
#[verifier::external_body]
pub struct ExSystemTime(SystemTime);

#[verifier::external_type_specification]
#[verifier::external_body]
pub struct ExSystemTimeError(SystemTimeError);

/// Relies on `SystemTime::now`: reads the wall clock.
#[verifier::external_body]
fn system_now() -> SystemTime {
    SystemTime::now()
}

/// Relies on `SystemTime::duration_since`: the time elapsed since the Unix
/// epoch, or an error when the clock reads earlier than the epoch.
#[verifier::external_body]
fn elapsed_since_epoch(t: &SystemTime) -> Result<Duration, SystemTimeError> {
    t.duration_since(std::time::UNIX_EPOCH)
}

/// Relies on `Duration::as_secs`: the whole seconds of a duration.
#[verifier::external_body]
fn whole_seconds(d: &Duration) -> u64 {
    d.as_secs()
}

/// The time elapsed since the Unix epoch.
pub fn get_now_ts() -> Result<Duration, SystemTimeError> {
    let now = system_now();
    elapsed_since_epoch(&now)
}

/// Whole seconds since the epoch as an `i64`, or `None` past what an `i64`
/// holds.
pub fn epoch_secs(secs: u64) -> (r: Option<i64>)
    ensures
        r == if secs <= i64::MAX as u64 {
            Some(secs as i64)
        } else {
            None::<i64>
        },
{
    if secs <= i64::MAX as u64 {
        Some(secs as i64)
    } else {
        None
    }
}

/// The current time in epoch seconds, or `None` when the clock reads before
/// the epoch or past what an `i64` holds (see `epoch_secs`).
pub fn now_secs() -> (r: Option<i64>)
    ensures
        r matches Some(t) ==> t >= 0,
{
    match get_now_ts() {
        Ok(d) => epoch_secs(whole_seconds(&d)),
        Err(_) => None,
    }
}

} // verus!
