//! The arithmetic half of the Windows time model.
//!
//! Windows counts absolute time in 100-nanosecond ticks since
//! 1601-01-01T00:00:00Z, split across two 32-bit halves, and breaks time
//! down into a 16-bit-field calendar struct. No host primitive maps epoch
//! seconds to ticks, so that arithmetic is the adapter's own and is
//! verified here; the host calls that turn ticks into calendar fields and
//! back live outside the verified boundary and traffic in the plain-value
//! layouts of this module.

use vstd::prelude::*;

use crate::types::{Local, Tm, Utc};

verus! {

/// 100-nanosecond ticks per second.
pub const TICKS_PER_SECOND: i64 = 10_000_000;

/// Seconds from 1601-01-01T00:00:00Z (the tick epoch) to
/// 1970-01-01T00:00:00Z (the Unix epoch).
pub const TICK_EPOCH_TO_UNIX_EPOCH: i64 = 11_644_473_600;

/// An absolute tick count split across two 32-bit halves, as the host
/// hands it around.
#[derive(Clone, Copy, PartialEq, Eq, Structural, Debug)]
pub struct FileTime {
    pub low: u32,
    pub high: u32,
}

/// The tick count a [`FileTime`] denotes.
pub open spec fn filetime_ticks(ft: FileTime) -> int {
    ft.high * 0x1_0000_0000 + ft.low
}

/// Converts epoch seconds to the tick count of the same instant. The range
/// bounds are where the tick count would leave 63 bits.
pub fn filetime_from_unix_seconds(sec: i64) -> (r: FileTime)
    requires
        -11_644_473_600 <= sec <= 910_692_730_085,
    ensures
        filetime_ticks(r) == (sec + 11_644_473_600) * 10_000_000,
{
    let t: u64 = ((sec + 11_644_473_600) as u64) * 10_000_000;
    FileTime { low: (t % 4_294_967_296) as u32, high: (t / 4_294_967_296) as u32 }
}

/// Converts a tick count back to epoch seconds, rounding sub-second ticks
/// toward the tick epoch.
pub fn filetime_to_unix_seconds(ft: &FileTime) -> (r: i64)
    ensures
        r == filetime_ticks(*ft) / 10_000_000 - 11_644_473_600,
{
    let t: u64 = (ft.high as u64) * 4_294_967_296 + (ft.low as u64);
    (t / 10_000_000) as i64 - 11_644_473_600
}

/// Seconds-to-ticks followed by ticks-to-seconds gives the seconds back:
/// the tick count of a whole second loses nothing to the sub-second
/// rounding of the way back.
pub proof fn lemma_tick_conversion_round_trip(sec: int)
    ensures
        ((sec + 11_644_473_600) * 10_000_000) / 10_000_000 - 11_644_473_600 == sec,
{
    vstd::arithmetic::div_mod::lemma_fundamental_div_mod_converse(
        (sec + 11_644_473_600) * 10_000_000, 10_000_000, sec + 11_644_473_600, 0);
}

/// The 16-bit-field calendar layout the host breaks absolute time into:
/// full year, 1-based month, day of week from Sunday = 0, 1-based day of
/// month, and the time of day.
#[derive(Clone, Copy, PartialEq, Eq, Structural, Debug)]
pub struct SystemTimeFields {
    pub year: u16,
    pub month: u16,
    pub day_of_week: u16,
    pub day: u16,
    pub hour: u16,
    pub minute: u16,
    pub second: u16,
    pub milliseconds: u16,
}

/// Marshals a broken-down value into the host's 16-bit calendar layout:
/// the month moves from 0-based to 1-based, the year from 1900-relative to
/// absolute. The field ranges are what the 16-bit layout can carry.
pub fn system_time_from_tm<Z>(t: &Tm<Z>) -> (r: SystemTimeFields)
    requires
        0 <= t.tm_sec <= 59,
        0 <= t.tm_min <= 59,
        0 <= t.tm_hour <= 23,
        1 <= t.tm_mday <= 31,
        0 <= t.tm_mon <= 11,
        0 <= t.tm_wday <= 6,
        -1900 <= t.tm_year <= 63635,
    ensures
        r.year == t.tm_year + 1900,
        r.month == t.tm_mon + 1,
        r.day_of_week == t.tm_wday,
        r.day == t.tm_mday,
        r.hour == t.tm_hour,
        r.minute == t.tm_min,
        r.second == t.tm_sec,
        r.milliseconds == 0,
{
    SystemTimeFields {
        year: (t.tm_year + 1900) as u16,
        month: (t.tm_mon + 1) as u16,
        day_of_week: t.tm_wday as u16,
        day: t.tm_mday as u16,
        hour: t.tm_hour as u16,
        minute: t.tm_min as u16,
        second: t.tm_sec as u16,
        milliseconds: 0,
    }
}

/// Reads the host's UTC calendar break-down back into a `Tm<Utc>`: months
/// return to 0-based, years to 1900-relative, the UTC offset is pinned to
/// zero, daylight saving never applies to UTC, and the nanoseconds of the
/// instant pass through untouched.
pub fn tm_utc_from_system_time(s: &SystemTimeFields, nsec: i32) -> (r: Tm<Utc>)
    ensures
        r.tm_sec == s.second,
        r.tm_min == s.minute,
        r.tm_hour == s.hour,
        r.tm_mday == s.day,
        r.tm_mon == s.month - 1,
        r.tm_year == s.year - 1900,
        r.tm_wday == s.day_of_week,
        r.tm_yday == 0,
        r.tm_isdst == 0,
        r.tm_utcoff == 0,
        r.tm_nsec == nsec,
{
    Tm {
        tm_sec: s.second as i32,
        tm_min: s.minute as i32,
        tm_hour: s.hour as i32,
        tm_mday: s.day as i32,
        tm_mon: s.month as i32 - 1,
        tm_year: s.year as i32 - 1900,
        tm_wday: s.day_of_week as i32,
        tm_yday: 0,
        tm_isdst: 0,
        tm_utcoff: 0,
        tm_nsec: nsec,
        zone: Utc,
    }
}

/// Reads the host's zone-specific calendar break-down back into a
/// `Tm<Local>`. The host expresses its zone bias as minutes west of UTC,
/// so the offset surfaced here is the bias sign-negated and scaled to
/// seconds east. The range bound is where that scaling would leave 32
/// bits.
pub fn tm_local_from_system_time(s: &SystemTimeFields, bias_minutes: i32, nsec: i32) -> (r: Tm<
    Local,
>)
    requires
        -35_791_394 <= bias_minutes <= 35_791_394,
    ensures
        r.tm_sec == s.second,
        r.tm_min == s.minute,
        r.tm_hour == s.hour,
        r.tm_mday == s.day,
        r.tm_mon == s.month - 1,
        r.tm_year == s.year - 1900,
        r.tm_wday == s.day_of_week,
        r.tm_yday == 0,
        r.tm_isdst == -1,
        r.tm_utcoff == -bias_minutes * 60,
        r.tm_nsec == nsec,
{
    Tm {
        tm_sec: s.second as i32,
        tm_min: s.minute as i32,
        tm_hour: s.hour as i32,
        tm_mday: s.day as i32,
        tm_mon: s.month as i32 - 1,
        tm_year: s.year as i32 - 1900,
        tm_wday: s.day_of_week as i32,
        tm_yday: 0,
        tm_isdst: -1,
        tm_utcoff: -bias_minutes * 60,
        tm_nsec: nsec,
        zone: Local,
    }
}

} // verus!
