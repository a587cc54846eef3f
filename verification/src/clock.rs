//! Readings of the machine's clocks as plain integers.
//!
//! Nothing is known of a reading before it is taken, so the functions here
//! promise next to nothing; the rules of the library take a reading as an
//! argument and are proved for every value of it.

use std::time::{Duration, Instant, SystemTime, SystemTimeError, UNIX_EPOCH};
use vstd::prelude::*;

verus! {

/// `std::time::Instant`, carried through as an opaque value.
#[verifier::external_type_specification]
#[verifier::external_body]
pub struct ExInstant(Instant);

/// `std::time::SystemTime`, carried through as an opaque value.
#[verifier::external_type_specification]
#[verifier::external_body]
pub struct ExSystemTime(SystemTime);

/// `std::time::SystemTimeError`, carried through as an opaque value.
#[verifier::external_type_specification]
#[verifier::external_body]
pub struct ExSystemTimeError(SystemTimeError);

/// `Instant::now` reads the monotonic clock. Nothing is claimed of the value.
pub assume_specification[ Instant::now ]() -> (instant: Instant)
;

/// `Instant::elapsed` gives the time that passed since the instant was taken.
/// Nothing is claimed of the value.
pub assume_specification[ Instant::elapsed ](instant: &Instant) -> (passed: Duration)
;

/// `Duration::as_millis` gives the whole milliseconds of a duration. A
/// duration is opaque here, so nothing is claimed of the number.
pub assume_specification[ Duration::as_millis ](duration: &Duration) -> (millis: u128)
;

/// `Duration::as_secs` gives the whole seconds of a duration. A duration is
/// opaque here, so nothing is claimed of the number.
pub assume_specification[ Duration::as_secs ](duration: &Duration) -> (secs: u64)
;

/// `SystemTime::now` reads the wall clock. Nothing is claimed of the value.
pub assume_specification[ SystemTime::now ]() -> (time: SystemTime)
;

/// `SystemTime::duration_since`, measured from `UNIX_EPOCH`: the time since
/// the epoch, or an error when the wall clock is set before it. Nothing is
/// claimed of either.
#[verifier::external_body]
fn since_unix_epoch(time: &SystemTime) -> (passed: Result<Duration, SystemTimeError>) {
    time.duration_since(UNIX_EPOCH)
}

/// A monotonic clock that counts milliseconds from its creation.
pub struct Clock {
    origin: Instant,
}

impl Clock {
    /// A clock that starts now.
    pub fn new() -> (clock: Self) {
        Clock { origin: Instant::now() }
    }

    /// Milliseconds since the clock was made, held at `u64::MAX` beyond it.
    pub fn now_ms(&self) -> (now: u64) {
        let passed = self.origin.elapsed();
        clamp_millis(passed.as_millis())
    }
}

/// A count of milliseconds as 64 bits, held at `u64::MAX` beyond it.
pub fn clamp_millis(millis: u128) -> (now: u64)
    ensures
        now == if millis <= u64::MAX {
            millis
        } else {
            u64::MAX as u128
        },
{
    if millis > u64::MAX as u128 {
        u64::MAX
    } else {
        millis as u64
    }
}

/// A count of seconds as a Unix time, held at `i64::MAX` beyond it.
pub fn clamp_unix(secs: u64) -> (time: i64)
    ensures
        time == if secs <= i64::MAX {
            secs
        } else {
            i64::MAX as u64
        },
{
    if secs > i64::MAX as u64 {
        i64::MAX
    } else {
        secs as i64
    }
}

/// The whole seconds of a time measured from the epoch; zero where the
/// measuring failed because the wall clock is set before the epoch.
pub fn secs_since_epoch(outcome: Result<Duration, SystemTimeError>) -> (secs: u64)
    ensures
        outcome is Err ==> secs == 0,
{
    match outcome {
        Ok(passed) => passed.as_secs(),
        Err(_) => 0,
    }
}

/// Seconds since the Unix epoch on the wall clock; zero when the clock is
/// set before the epoch.
pub fn unix_secs() -> (secs: u64) {
    let wall = SystemTime::now();
    secs_since_epoch(since_unix_epoch(&wall))
}

/// The wall clock as a Unix time.
pub fn now_unix() -> (time: i64)
    ensures
        time >= 0,
{
    clamp_unix(unix_secs())
}

/// One reading of both clocks: the monotonic clock in milliseconds, by which
/// every timeout is measured, and the wall clock in seconds since the Unix
/// epoch, by which records are dated.
#[derive(Debug, Clone, Copy, PartialEq, Eq)]
pub struct Reading {
    pub mono_ms: u64,
    pub unix_secs: u64,
}

impl Reading {
    /// The wall clock of the reading as a Unix time.
    pub open spec fn unix_time(self) -> i64 {
        if self.unix_secs <= i64::MAX {
            self.unix_secs as i64
        } else {
            i64::MAX
        }
    }

    /// The wall clock of the reading as a Unix time.
    pub fn unix(&self) -> (time: i64)
        ensures
            time == self.unix_time(),
    {
        clamp_unix(self.unix_secs)
    }
}

impl Clock {
    /// Reads both clocks.
    pub fn read(&self) -> (at: Reading) {
        Reading { mono_ms: self.now_ms(), unix_secs: unix_secs() }
    }
}

} // verus!
