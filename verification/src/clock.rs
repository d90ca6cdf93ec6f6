//! The wait budget, and the clock it is counted from.

use std::time::Duration;
use std::time::SystemTime;
use std::time::SystemTimeError;
use vstd::prelude::*;

verus! {

/// `std::time::SystemTime`, a reading of the system clock.
#[verifier::external_type_specification]
#[verifier::external_body]
pub struct ExSystemTime(SystemTime);

/// `std::time::SystemTimeError`, returned when the second of two readings is
/// the later one.
#[verifier::external_type_specification]
#[verifier::external_body]
pub struct ExSystemTimeError(SystemTimeError);

/// `SystemTime::now` reads the system clock. Nothing is claimed of the
/// reading.
pub assume_specification[ SystemTime::now ]() -> (now: SystemTime)
;

/// `SystemTime::duration_since` measures from an earlier reading, or fails if
/// that reading is the later one. Nothing is claimed of the outcome.
pub assume_specification[ SystemTime::duration_since ](
    time: &SystemTime,
    earlier: SystemTime,
) -> (elapsed: Result<Duration, SystemTimeError>)
;

/// The whole seconds of a duration: what `Duration::as_secs` returns, as a
/// function of the duration alone.
pub uninterp spec fn whole_seconds(duration: Duration) -> u64;

/// The part of a duration below one second, in nanoseconds: what
/// `Duration::subsec_nanos` returns, as a function of the duration alone.
pub uninterp spec fn nanos_beyond(duration: Duration) -> u32;

/// `Duration::as_secs` gives the whole seconds of a duration. The contract
/// claims only that they depend on the duration and on nothing else.
pub assume_specification[ Duration::as_secs ](duration: &Duration) -> (secs: u64)
    ensures
        secs == whole_seconds(*duration),
;

/// `Duration::subsec_nanos` gives the part of a duration below one second,
/// in nanoseconds: always less than one billion, and dependent on the
/// duration alone.
pub assume_specification[ Duration::subsec_nanos ](duration: &Duration) -> (nanos: u32)
    ensures
        nanos == nanos_beyond(*duration),
        nanos < 1_000_000_000,
;

/// Reads `std::time::UNIX_EPOCH`, the instant that timestamps count from.
#[verifier::external_body]
fn epoch() -> (start: SystemTime) {
    std::time::UNIX_EPOCH
}

/// How long one wait on the semaphore may last, in seconds.
pub const WAIT_BUDGET: u64 = 10;

/// The largest second that a deadline can name.
pub const LAST_SECOND: i64 = 0x7fff_ffff_ffff_ffff;

/// An absolute point in time, as the timed wait takes it: seconds since the
/// epoch and nanoseconds within the second.
#[derive(Clone, Copy, PartialEq, Eq, Debug)]
pub struct Deadline {
    pub sec: i64,
    pub nsec: i64,
}

/// The clock's answer to a session that asked for the time.
#[derive(Clone, Copy, PartialEq, Eq, Debug)]
pub enum Reading {
    /// Time since the epoch: whole seconds, and nanoseconds within the second.
    At { secs: u64, nanos: u32 },
    /// The clock stands before the epoch.
    Unreadable,
}

/// The deadline one wait budget after a reading of the clock. A second that
/// no deadline can name becomes the last one that can be named.
pub open spec fn deadline_after(secs: u64, nanos: u32) -> Deadline {
    Deadline {
        sec: if secs + WAIT_BUDGET <= LAST_SECOND {
            (secs + WAIT_BUDGET) as i64
        } else {
            LAST_SECOND
        },
        nsec: nanos as i64,
    }
}

/// The deadline one wait budget after a reading of the clock.
pub fn deadline(secs: u64, nanos: u32) -> (until: Deadline)
    ensures
        until == deadline_after(secs, nanos),
{
    let sec: i64 = if secs <= (LAST_SECOND as u64) - WAIT_BUDGET {
        (secs + WAIT_BUDGET) as i64
    } else {
        LAST_SECOND
    };
    Deadline { sec, nsec: nanos as i64 }
}

/// Reads the system clock as time since the epoch.
pub fn read_clock() -> (reading: Reading)
    ensures
        reading matches Reading::At { nanos, .. } ==> nanos < 1_000_000_000,
{
    let now = SystemTime::now();
    reading_of(now.duration_since(epoch()))
}

/// The reading that a measurement from the epoch stands for: the time that
/// has passed, in whole seconds and the nanoseconds beyond them, or no time
/// at all where the clock stands before the epoch.
pub open spec fn reading_from(elapsed: Result<Duration, SystemTimeError>) -> Reading {
    match elapsed {
        Ok(duration) => Reading::At {
            secs: whole_seconds(duration),
            nanos: nanos_beyond(duration),
        },
        Err(_) => Reading::Unreadable,
    }
}

/// The reading that a measurement from the epoch stands for.
pub fn reading_of(elapsed: Result<Duration, SystemTimeError>) -> (reading: Reading)
    ensures
        reading == reading_from(elapsed),
        reading matches Reading::At { nanos, .. } ==> nanos < 1_000_000_000,
{
    match elapsed {
        Ok(duration) => Reading::At { secs: duration.as_secs(), nanos: duration.subsec_nanos() },
        Err(_) => Reading::Unreadable,
    }
}

} // verus!
