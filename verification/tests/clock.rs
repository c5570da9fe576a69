use wasihost::clock::{
    clock_error_from_errno, clock_outcome, clock_timestamp_from_timespec, get_unix_clockid,
    timespec_in_range, ClockFailure, Timespec, UnixClock,
};
use wasihost::types::{Clockid, Errno, Timestamp};

#[test]
fn every_clock_has_a_unix_clock() {
    assert_eq!(get_unix_clockid(Clockid::Realtime), Some(UnixClock::Realtime));
    assert_eq!(get_unix_clockid(Clockid::Monotonic), Some(UnixClock::Monotonic));
    assert_eq!(get_unix_clockid(Clockid::ProcessCputimeId), Some(UnixClock::ProcessCputime));
    assert_eq!(get_unix_clockid(Clockid::ThreadCputimeId), Some(UnixClock::ThreadCputime));
}

#[test]
fn clock_failures() {
    assert_eq!(clock_error_from_errno(ClockFailure::Invalid), Errno::Inval);
    assert_eq!(clock_error_from_errno(ClockFailure::NotPermitted), Errno::Perm);
    assert_eq!(clock_error_from_errno(ClockFailure::Other), Errno::Inval);
    assert_eq!(clock_outcome(Err(ClockFailure::NotPermitted)), Err(Errno::Perm));
    assert_eq!(clock_outcome(Err(ClockFailure::Other)), Err(Errno::Inval));
}

#[test]
fn timestamps_count_nanoseconds() {
    let time = Timespec { seconds: 3, nanoseconds: 500 };
    assert_eq!(clock_timestamp_from_timespec(time), Timestamp(3_000_000_500));
    assert_eq!(clock_outcome(Ok(time)), Ok(Timestamp(3_000_000_500)));
    let time = Timespec { seconds: 0, nanoseconds: 1 };
    assert_eq!(clock_timestamp_from_timespec(time), Timestamp(1));
    let time = Timespec { seconds: 1_600_000_000, nanoseconds: 999_999_999 };
    assert_eq!(clock_timestamp_from_timespec(time), Timestamp(1_600_000_000_999_999_999));
}

#[test]
fn timestamps_wrap_in_the_nanoseconds() {
    let most = (u64::MAX / 1_000_000_000) as i64;
    let time = Timespec { seconds: most, nanoseconds: 999_999_999 };
    assert!(timespec_in_range(time));
    let expected = (most as u64 * 1_000_000_000).wrapping_add(999_999_999);
    assert_eq!(clock_timestamp_from_timespec(time), Timestamp(expected));
    assert!(expected < 1_000_000_000);
    assert!(!timespec_in_range(Timespec { seconds: most + 1, nanoseconds: 0 }));
    assert!(!timespec_in_range(Timespec { seconds: -1, nanoseconds: 0 }));
    assert!(!timespec_in_range(Timespec { seconds: 0, nanoseconds: -1 }));
    assert!(timespec_in_range(Timespec { seconds: 0, nanoseconds: 0 }));
}
