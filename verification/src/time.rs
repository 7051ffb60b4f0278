//! The injectable time source.
//!
//! Verification needs "now" as seconds or milliseconds since the Unix
//! epoch. The default source reads the wall clock; a fixed source makes
//! verification deterministic for testing. A clock failure is always
//! surfaced as its own error kind, never defaulted.
use vstd::prelude::*;

use crate::error::TlsError;

verus! {

/// Relies on `std::time::SystemTime::now`: reads the wall clock; the
/// result is converted to whole seconds since the Unix epoch through
/// `duration_since(UNIX_EPOCH)` and `Duration::as_secs`. `None` reports a
/// clock before the epoch. Nothing can be promised of the value read.
#[verifier::external_body]
fn wall_clock_unix_secs() -> (r: Option<u64>)
{
    std::time::SystemTime::now()
        .duration_since(std::time::UNIX_EPOCH)
        .ok()
        .map(|d| d.as_secs())
}

/// Where verification takes its notion of "now" from: the wall clock, or
/// a fixed number of seconds since the Unix epoch.
#[derive(Debug, Clone, Copy, PartialEq, Eq)]
pub enum TimeSource {
    WallClock,
    Fixed(u64),
}

impl TimeSource {
    /// Resolve this source to seconds since the Unix epoch. A fixed
    /// source always succeeds with its own value; the wall clock may fail,
    /// and that failure is reported as `FailedToGetCurrentTime`.
    pub fn resolve(&self) -> (r: Result<u64, TlsError>)
        ensures
            self matches TimeSource::Fixed(s) ==> r == Ok::<u64, TlsError>(*s),
            r is Err ==> self is WallClock && r == Err::<u64, TlsError>(
                TlsError::FailedToGetCurrentTime,
            ),
    {
        match self {
            TimeSource::Fixed(s) => Ok(*s),
            TimeSource::WallClock => match wall_clock_unix_secs() {
                Some(s) => Ok(s),
                None => Err(TlsError::FailedToGetCurrentTime),
            },
        }
    }
}

/// Current time as seconds since the Unix epoch, from the wall clock.
/// Failure to read the clock is `FailedToGetCurrentTime`.
pub fn try_now() -> (r: Result<u64, TlsError>)
    ensures
        r is Err ==> r == Err::<u64, TlsError>(TlsError::FailedToGetCurrentTime),
{
    match wall_clock_unix_secs() {
        Some(s) => Ok(s),
        None => Err(TlsError::FailedToGetCurrentTime),
    }
}

/// Convert whole seconds since the Unix epoch to milliseconds. The
/// multiplication is overflow-checked: a second count whose millisecond
/// count would not fit is reported as `FailedToGetCurrentTime`, never
/// wrapped or defaulted.
pub fn seconds_to_millis(secs: u64) -> (r: Result<u64, TlsError>)
    ensures
        secs <= u64::MAX / 1000 ==> r == Ok::<u64, TlsError>((secs * 1000) as u64),
        secs > u64::MAX / 1000 ==> r == Err::<u64, TlsError>(TlsError::FailedToGetCurrentTime),
        r matches Ok(ms) ==> ms % 1000 == 0,
{
    if secs <= u64::MAX / 1000 {
        Ok(secs * 1000)
    } else {
        Err(TlsError::FailedToGetCurrentTime)
    }
}

/// Current time as milliseconds since the Unix epoch: the wall clock's
/// whole seconds, converted by `seconds_to_millis`. Fails with
/// `FailedToGetCurrentTime` if the clock cannot be read or the
/// millisecond count would overflow; the result is always a whole number
/// of seconds scaled by 1000.
pub fn unix_time_millis() -> (r: Result<u64, TlsError>)
    ensures
        r matches Ok(ms) ==> ms % 1000 == 0,
        r is Err ==> r == Err::<u64, TlsError>(TlsError::FailedToGetCurrentTime),
{
    match wall_clock_unix_secs() {
        Some(secs) => seconds_to_millis(secs),
        None => Err(TlsError::FailedToGetCurrentTime),
    }
}

} // verus!
