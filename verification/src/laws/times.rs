//! What holds of points in time.

use crate::time::{
    as_timeout_param, in_range, timeout_param, wake_time, Timestamp, MAX_SECS, MIN_SECS,
};
use vstd::prelude::*;

verus! {

/// The nanoseconds from 1970-01-01 to a time.
pub open spec fn instant(t: Timestamp) -> int {
    t.secs * 1_000_000_000 + t.nanos
}

/// How many days the years before a year have, counted from the first: every fourth year has
/// a day more, but of the full centuries only every fourth.
pub open spec fn days_before_year(year: int) -> int {
    365 * (year - 1) + (year - 1) / 4 - (year - 1) / 100 + (year - 1) / 400
}

/// The range of times is that of whole years: from the start of the year -262143 to the end
/// of the year 262142.
pub proof fn law_range_is_whole_years(secs: int)
    ensures
        in_range(secs) <==> (days_before_year(-262143) - days_before_year(1970)) * 86_400 <= secs
            < (days_before_year(262143) - days_before_year(1970)) * 86_400,
        in_range(secs) <==> MIN_SECS <= secs <= MAX_SECS,
{
}

/// What is asked of times: any second in range with a fraction of less than two seconds is a
/// time, and any second from 1970 on with a fraction of less than one is one that a clock can
/// say.
pub proof fn law_valid_times(t: Timestamp)
    ensures
        t.well_formed() <==> MIN_SECS <= t.secs <= MAX_SECS && t.nanos < 2_000_000_000,
        t.clock_reading() <==> 0 <= t.secs <= MAX_SECS && t.nanos < 1_000_000_000,
        t.clock_reading() ==> t.well_formed(),
{
}

/// Times are ordered by their seconds, and within a second by their fraction.
pub proof fn law_times_are_ordered_by_second(a: Timestamp, b: Timestamp)
    ensures
        a.secs < b.secs ==> a.before(b) && !b.before(a),
        a.secs == b.secs ==> (a.before(b) <==> a.nanos < b.nanos),
        a.nanos < 1_000_000_000 && b.nanos < 1_000_000_000 ==> (a.before(b) <==> instant(a)
            < instant(b)),
{
}

/// The order of times is strict and total: of two different times, exactly one comes before
/// the other; and it is transitive.
pub proof fn law_times_are_totally_ordered(a: Timestamp, b: Timestamp, c: Timestamp)
    ensures
        !a.before(a),
        a != b ==> a.before(b) != b.before(a),
        a.before(b) && b.before(c) ==> a.before(c),
{
}

/// Comparing two times tells their order.
pub proof fn law_comparing_tells_the_order(a: Timestamp, b: Timestamp, r: bool)
    requires
        call_ensures(Timestamp::is_before, (&a, &b), r),
    ensures
        a.secs < b.secs ==> r,
        a.secs > b.secs ==> !r,
        a.secs == b.secs ==> r == (a.nanos < b.nanos),
{
}

/// A time that is read back is the same instant, with a fraction past the second only in the
/// last second of a minute; and a time that is so already stays as it is.
pub proof fn law_settling_keeps_the_instant(t: Timestamp)
    requires
        MIN_SECS <= t.secs <= MAX_SECS,
        t.nanos < 2_000_000_000,
    ensures
        instant(t.settled()) == instant(t),
        MIN_SECS <= t.settled().secs <= MAX_SECS,
        t.settled().nanos >= 1_000_000_000 ==> t.settled().secs % 60 == 59,
        t.nanos < 1_000_000_000 || t.secs % 60 == 59 ==> t.settled() == t,
        t.settled().settled() == t.settled(),
{
}

/// A wake time is the duration away from now, to the nanosecond; there is none exactly if the
/// range of times ends before.
pub proof fn law_wake_time_is_the_duration_away(
    now: Timestamp,
    duration_secs: u64,
    r: Option<Timestamp>,
)
    requires
        0 <= now.secs <= MAX_SECS,
        now.nanos < 1_000_000_000,
        call_ensures(wake_time, (now, duration_secs), r),
    ensures
        r is Some <==> duration_secs <= MAX_SECS - now.secs,
        r is Some ==> instant(r->0) - instant(now) == duration_secs * 1_000_000_000,
        r is Some ==> r->0.nanos == now.nanos,
{
}

/// A longer sleep does not end earlier.
pub proof fn law_longer_sleeps_end_later(
    now: Timestamp,
    shorter: u64,
    longer: u64,
    r: Option<Timestamp>,
    r_longer: Option<Timestamp>,
)
    requires
        0 <= now.secs <= MAX_SECS,
        now.nanos < 1_000_000_000,
        shorter < longer,
        call_ensures(wake_time, (now, shorter), r),
        call_ensures(wake_time, (now, longer), r_longer),
    ensures
        r_longer is Some ==> r is Some && instant(r->0) < instant(r_longer->0),
{
}

/// A timeout is sent as it is, or as the longest that can be sent if that is shorter.
pub proof fn law_timeout_is_sent_or_capped(secs: u64, r: i32)
    requires
        call_ensures(as_timeout_param, (secs,), r),
    ensures
        r == timeout_param(secs),
        0 <= r <= secs,
        r == secs || (r == i32::MAX && secs > i32::MAX),
{
}

} // verus!
