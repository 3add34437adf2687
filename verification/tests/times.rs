use absurd::time::{as_timeout_param, wake_time, MAX_SECS, MIN_SECS};
use absurd::Timestamp;
use chrono::{DateTime, Utc};

fn at(secs: i64, nanos: u32) -> Timestamp {
    Timestamp { secs, nanos }
}

#[test]
fn range_is_that_of_utc_times() {
    assert_eq!(MIN_SECS, DateTime::<Utc>::MIN_UTC.timestamp());
    assert_eq!(MAX_SECS, DateTime::<Utc>::MAX_UTC.timestamp());
    assert!(DateTime::<Utc>::from_timestamp(MIN_SECS - 1, 0).is_none());
    assert!(DateTime::<Utc>::from_timestamp(MAX_SECS + 1, 0).is_none());
}

#[test]
fn times_are_ordered_by_second_and_fraction() {
    assert!(at(1, 999_999_999).is_before(&at(2, 0)));
    assert!(at(2, 0).is_before(&at(2, 1)));
    assert!(!at(2, 1).is_before(&at(2, 1)));
    assert!(!at(2, 1).is_before(&at(2, 0)));
    assert!(!at(3, 0).is_before(&at(2, 999_999_999)));
    assert!(at(-5, 7).is_before(&at(-4, 0)));
}

#[test]
fn leap_seconds_are_ordered_as_utc_times_are() {
    let leap = at(59, 1_500_000_000);
    let next = at(60, 0);
    assert!(leap.is_before(&next));
    let leap_time = DateTime::<Utc>::from_timestamp(59, 1_500_000_000).unwrap();
    let next_time = DateTime::<Utc>::from_timestamp(60, 0).unwrap();
    assert!(leap_time < next_time);
}

#[test]
fn wake_time_adds_seconds() {
    assert_eq!(wake_time(at(1_700_000_000, 250), 3600), Some(at(1_700_003_600, 250)));
    assert_eq!(wake_time(at(0, 0), 0), Some(at(0, 0)));
}

#[test]
fn wake_time_of_huge_durations_does_not_exist() {
    for duration_secs in [i64::MAX as u64, 1u64 << 63, (1u64 << 63) + 1, u64::MAX - 59, u64::MAX] {
        assert_eq!(wake_time(at(0, 0), duration_secs), None);
        assert_eq!(wake_time(at(1_700_000_000, 5), duration_secs), None);
    }
}

#[test]
fn wake_time_stays_in_range() {
    let last = MAX_SECS as u64;
    assert_eq!(wake_time(at(0, 999_999_999), last), Some(at(MAX_SECS, 999_999_999)));
    assert_eq!(wake_time(at(1, 0), last), None);
    assert_eq!(wake_time(at(0, 0), last + 1), None);
    assert_eq!(wake_time(at(MAX_SECS, 7), 0), Some(at(MAX_SECS, 7)));
    assert_eq!(wake_time(at(MAX_SECS, 7), 1), None);
}

#[test]
fn timeouts_that_are_too_long_are_sent_as_the_longest() {
    for secs in [0u64, 1, 3600, 0x7fff_fffe] {
        assert_eq!(as_timeout_param(secs) as u64, secs);
    }
    for secs in [0x7fff_ffff, 0x8000_0000, 0xffff_ffff, 0x1_0000_0000, 0x1_0000_0001, u64::MAX] {
        assert_eq!(as_timeout_param(secs), i32::MAX);
    }
}
