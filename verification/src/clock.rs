//! Clocks: what the host makes of the clocks of a Unix system.
//!
//! The system is asked outside of this library. Here is which clock to ask
//! for, and what the answer means.

use vstd::prelude::*;
use crate::types::{Clockid, Errno, Timestamp, WasiResult};

verus! {

/// Nanoseconds in a second.
pub const NANOSECONDS: u64 = 1_000_000_000;

/// The clocks of a Unix system.
#[derive(Debug, Clone, Copy, PartialEq, Eq, Structural)]
pub enum UnixClock {
    /// The system-wide clock that measures real time.
    Realtime,
    /// The clock that cannot be set and counts on from some starting point.
    Monotonic,
    /// The CPU-time clock of the process.
    ProcessCputime,
    /// The CPU-time clock of the thread.
    ThreadCputime,
}

/// Why the system did not read a clock.
#[derive(Debug, Clone, Copy, PartialEq, Eq, Structural)]
pub enum ClockFailure {
    /// The system does not know the clock.
    Invalid,
    /// The caller may not read the clock.
    NotPermitted,
    /// Any other failure.
    Other,
}

/// A point in time as the system gives it: seconds, and nanoseconds on top.
#[derive(Debug, Clone, Copy, PartialEq, Eq, Structural)]
pub struct Timespec {
    pub seconds: i64,
    pub nanoseconds: i64,
}

/// The timestamp of a point in time: its nanoseconds, counted modulo 2^64.
pub open spec fn timestamp_of(time: Timespec) -> Timestamp {
    Timestamp(((time.seconds * NANOSECONDS + time.nanoseconds) % 0x1_0000_0000_0000_0000) as u64)
}

/// Whether the seconds of a point in time, as nanoseconds, are a 64-bit
/// number, and its nanoseconds are not negative.
pub open spec fn in_range(time: Timespec) -> bool {
    &&& 0 <= time.seconds
    &&& time.seconds * NANOSECONDS <= u64::MAX
    &&& 0 <= time.nanoseconds
}

/// The Unix clock that stands behind a WASI clock.
pub fn get_unix_clockid(id: Clockid) -> (clock: Option<UnixClock>)
    ensures
        clock == Some(
            match id {
                Clockid::Realtime => UnixClock::Realtime,
                Clockid::Monotonic => UnixClock::Monotonic,
                Clockid::ProcessCputimeId => UnixClock::ProcessCputime,
                Clockid::ThreadCputimeId => UnixClock::ThreadCputime,
            },
        ),
{
    match id {
        Clockid::Realtime => Some(UnixClock::Realtime),
        Clockid::Monotonic => Some(UnixClock::Monotonic),
        Clockid::ProcessCputimeId => Some(UnixClock::ProcessCputime),
        Clockid::ThreadCputimeId => Some(UnixClock::ThreadCputime),
    }
}

/// The error that the guest sees where the system did not read a clock.
pub fn clock_error_from_errno(failure: ClockFailure) -> (error: Errno)
    ensures
        error == match failure {
            ClockFailure::Invalid => Errno::Inval,
            ClockFailure::NotPermitted => Errno::Perm,
            ClockFailure::Other => Errno::Inval,
        },
{
    match failure {
        ClockFailure::Invalid => Errno::Inval,
        ClockFailure::NotPermitted => Errno::Perm,
        ClockFailure::Other => Errno::Inval,
    }
}

/// Whether `clock_timestamp_from_timespec` takes the point in time.
pub fn timespec_in_range(time: Timespec) -> (inside: bool)
    ensures
        inside == in_range(time),
{
    0 <= time.seconds && time.seconds <= (u64::MAX / NANOSECONDS) as i64 && 0 <= time.nanoseconds
}

/// The timestamp of a point in time that the system gave.
pub fn clock_timestamp_from_timespec(time: Timespec) -> (timestamp: Timestamp)
    requires
        in_range(time),
    ensures
        timestamp == timestamp_of(time),
{
    let seconds: u64 = time.seconds as u64 * NANOSECONDS;
    let nanoseconds: u64 = time.nanoseconds as u64;
    let room: u64 = u64::MAX - seconds;
    if nanoseconds <= room {
        Timestamp(seconds + nanoseconds)
    } else {
        Timestamp(nanoseconds - room - 1)
    }
}

/// What a clock call returns for what the system answered: the timestamp of
/// the point in time, or the error that stands for the failure.
pub fn clock_outcome(answer: Result<Timespec, ClockFailure>) -> (result: WasiResult<Timestamp>)
    requires
        answer matches Ok(time) ==> in_range(time),
    ensures
        result == match answer {
            Ok(time) => Ok::<Timestamp, Errno>(timestamp_of(time)),
            Err(failure) => Err::<Timestamp, Errno>(
                match failure {
                    ClockFailure::Invalid => Errno::Inval,
                    ClockFailure::NotPermitted => Errno::Perm,
                    ClockFailure::Other => Errno::Inval,
                },
            ),
        },
{
    match answer {
        Ok(time) => Ok(clock_timestamp_from_timespec(time)),
        Err(failure) => Err(clock_error_from_errno(failure)),
    }
}

} // verus!
