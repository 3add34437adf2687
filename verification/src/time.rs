//! Points in time, as the library reads and compares them.

use crate::outside::checked_add_seconds;
use vstd::prelude::*;

verus! {

/// The first second that a UTC time can hold: the start of the year -262143.
pub const MIN_SECS: i64 = -8_334_601_228_800;

/// The last second that a UTC time can hold: the end of the year 262142.
pub const MAX_SECS: i64 = 8_210_266_876_799;

/// A UTC time: whole seconds since 1970-01-01 and the nanoseconds within the second.
/// Inside a leap second the nanoseconds run on past one thousand million.
#[derive(Debug, Clone, Copy, PartialEq, Eq, Structural)]
pub struct Timestamp {
    pub secs: i64,
    pub nanos: u32,
}

/// Whether a UTC time can lie in this second.
pub open spec fn in_range(secs: int) -> bool {
    MIN_SECS <= secs <= MAX_SECS
}

impl Timestamp {
    /// What a UTC time can hold: a second in range, and a fraction of less than two seconds.
    pub open spec fn well_formed(self) -> bool {
        &&& in_range(self.secs as int)
        &&& self.nanos < 2_000_000_000
    }

    /// The time as it is written down and read back. Only the last second of a minute can be
    /// followed by a leap second; a fraction that runs past any other second ends up in the
    /// next one.
    pub open spec fn settled(self) -> Timestamp {
        if self.nanos >= 1_000_000_000 && self.secs % 60 != 59 {
            Timestamp { secs: (self.secs + 1) as i64, nanos: (self.nanos - 1_000_000_000) as u32 }
        } else {
            self
        }
    }

    /// What a clock can say: a time from 1970 on, outside any leap second.
    pub open spec fn clock_reading(self) -> bool {
        &&& 0 <= self.secs <= MAX_SECS
        &&& self.nanos < 1_000_000_000
    }

    /// Whether this time comes before the other.
    pub open spec fn before(self, other: Timestamp) -> bool {
        self.secs < other.secs || (self.secs == other.secs && self.nanos < other.nanos)
    }

    /// Whether this time comes before the other.
    pub fn is_before(&self, other: &Timestamp) -> (r: bool)
        ensures
            r == self.before(*other),
    {
        self.secs < other.secs || (self.secs == other.secs && self.nanos < other.nanos)
    }
}

/// A timeout as a signed 32-bit parameter holds it: the longest that it can hold stands for
/// every longer one.
pub open spec fn timeout_param(secs: u64) -> i32 {
    if secs <= i32::MAX {
        secs as i32
    } else {
        i32::MAX
    }
}

/// A timeout as a signed 32-bit parameter holds it.
pub fn as_timeout_param(secs: u64) -> (r: i32)
    ensures
        r == timeout_param(secs),
{
    if secs <= i32::MAX as u64 {
        secs as i32
    } else {
        i32::MAX
    }
}

/// The time `duration_secs` seconds after `now`; `None` if no UTC time is that far away.
pub fn wake_time(now: Timestamp, duration_secs: u64) -> (r: Option<Timestamp>)
    requires
        now.clock_reading(),
    ensures
        match r {
            Some(wake_at) => {
                &&& wake_at.secs == now.secs + duration_secs
                &&& wake_at.nanos == now.nanos
                &&& wake_at.well_formed()
            },
            None => !in_range(now.secs + duration_secs),
        },
{
    if duration_secs > i64::MAX as u64 {
        return None;
    }
    checked_add_seconds(now, duration_secs as i64)
}

} // verus!
