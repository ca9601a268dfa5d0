//! Marshalling between `Tm<Local>` and the host's native broken-down
//! calendar layout.
//!
//! Only the host operating system holds the authoritative time-zone and
//! daylight-saving rules, so the local-zone conversions delegate to the
//! host's calendar primitives. Verified code never touches the host's
//! foreign-memory struct itself; the caller that performs the host call
//! copies the fields into or out of [`NativeCalendar`], a plain-value
//! mirror, immediately around the call, and the field mapping proper is
//! verified here.

use vstd::prelude::*;

use crate::types::{Local, Tm};

verus! {

/// The calendar fields of the host's native broken-down layout, as plain
/// values: seconds, minutes, hours of the day, 1-based day of month,
/// 0-based month, years since 1900, day of week, day of year, the
/// tri-state daylight-saving flag, and the signed UTC offset in seconds
/// east that the host reports for the instant.
#[derive(Clone, Copy, PartialEq, Eq, Structural, Debug)]
pub struct NativeCalendar {
    pub sec: i32,
    pub min: i32,
    pub hour: i32,
    pub mday: i32,
    pub mon: i32,
    pub year: i32,
    pub wday: i32,
    pub yday: i32,
    pub isdst: i32,
    pub utcoff: i32,
}

/// Completes an epoch-to-local break-down from the fields the host
/// reported for the instant: every calendar field is taken as the host
/// gave it, the host's UTC offset is surfaced, and the nanoseconds of the
/// instant pass through untouched.
pub fn local_tm_from_native(n: &NativeCalendar, nsec: i32) -> (r: Tm<Local>)
    ensures
        r.tm_sec == n.sec,
        r.tm_min == n.min,
        r.tm_hour == n.hour,
        r.tm_mday == n.mday,
        r.tm_mon == n.mon,
        r.tm_year == n.year,
        r.tm_wday == n.wday,
        r.tm_yday == n.yday,
        r.tm_isdst == n.isdst,
        r.tm_utcoff == n.utcoff,
        r.tm_nsec == nsec,
{
    Tm {
        tm_sec: n.sec,
        tm_min: n.min,
        tm_hour: n.hour,
        tm_mday: n.mday,
        tm_mon: n.mon,
        tm_year: n.year,
        tm_wday: n.wday,
        tm_yday: n.yday,
        tm_isdst: n.isdst,
        tm_utcoff: n.utcoff,
        tm_nsec: nsec,
        zone: Local,
    }
}

/// Marshals a local broken-down value into the host's layout for the
/// local-assuming calendar-to-epoch primitive. Every field is handed over
/// as it stands; the host re-derives the correct UTC offset from its own
/// rules and does not trust the one carried here.
pub fn native_from_local_tm(t: &Tm<Local>) -> (r: NativeCalendar)
    ensures
        r.sec == t.tm_sec,
        r.min == t.tm_min,
        r.hour == t.tm_hour,
        r.mday == t.tm_mday,
        r.mon == t.tm_mon,
        r.year == t.tm_year,
        r.wday == t.tm_wday,
        r.yday == t.tm_yday,
        r.isdst == t.tm_isdst,
        r.utcoff == t.tm_utcoff,
{
    NativeCalendar {
        sec: t.tm_sec,
        min: t.tm_min,
        hour: t.tm_hour,
        mday: t.tm_mday,
        mon: t.tm_mon,
        year: t.tm_year,
        wday: t.tm_wday,
        yday: t.tm_yday,
        isdst: t.tm_isdst,
        utcoff: t.tm_utcoff,
    }
}

} // verus!
