//! The process clock, read in whole seconds.

use std::time::{Duration, SystemTime, SystemTimeError, UNIX_EPOCH};

use vstd::prelude::*;

verus! {

/// A point in time of the system clock, carried through as an opaque value.
#[verifier::external_type_specification]
#[verifier::external_body]
pub struct ExSystemTime(SystemTime);

/// The error of a time that lies before the one it is measured from.
#[verifier::external_type_specification]
#[verifier::external_body]
pub struct ExSystemTimeError(SystemTimeError);

/// `SystemTime::now`: the current reading of the system clock. Nothing is
/// claimed of it.
#[verifier::external_body]
fn system_time() -> SystemTime {
    SystemTime::now()
}

/// `SystemTime::duration_since` against the Unix epoch: the time that has
/// passed since the epoch, or an error for a clock that stands before it.
#[verifier::external_body]
fn since_epoch(at: &SystemTime) -> Result<Duration, SystemTimeError> {
    at.duration_since(UNIX_EPOCH)
}

/// The whole seconds that a duration holds, as `Duration::as_secs` gives
/// them: the part of a second beyond them is dropped. It is a function of
/// the duration alone; the reading of the clock that a duration may come
/// from is not named.
pub uninterp spec fn duration_seconds(span: Duration) -> u64;

/// The current time in whole seconds since the Unix epoch; nothing where the
/// clock stands before the epoch.
pub fn now_seconds() -> Option<u64> {
    let at = system_time();
    seconds_of(since_epoch(&at))
}

/// `Duration::as_secs`: the whole seconds of a duration.
#[verifier::external_body]
fn whole_seconds(span: &Duration) -> (seconds: u64)
    ensures
        seconds == duration_seconds(*span),
{
    span.as_secs()
}

/// What a measurement against the epoch comes to in whole seconds: the
/// seconds of the time that has passed, or nothing where the measurement
/// failed because the clock stands before the epoch.
pub fn seconds_of(elapsed: Result<Duration, SystemTimeError>) -> (seconds: Option<u64>)
    ensures
        match elapsed {
            Ok(span) => seconds == Some(duration_seconds(span)),
            Err(_) => seconds is None,
        },
{
    match elapsed {
        Ok(span) => Some(whole_seconds(&span)),
        Err(_) => None,
    }
}

} // verus!
