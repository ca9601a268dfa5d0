//! The two value types of the crate and the zone markers that tag them.

use vstd::prelude::*;

verus! {

/// Zone marker: the broken-down value reads in Coordinated Universal Time.
#[derive(Clone, Copy, PartialEq, Eq, Structural, Debug)]
pub struct Utc;

/// Zone marker: the broken-down value reads in the host's local time zone.
#[derive(Clone, Copy, PartialEq, Eq, Structural, Debug)]
pub struct Local;

/// An absolute instant: signed seconds since 1970-01-01T00:00:00Z, plus
/// nanoseconds within that second.
#[derive(Clone, Copy, PartialEq, Eq, Structural, Debug)]
pub struct Timespec {
    pub sec: i64,
    pub nsec: i32,
}

impl Timespec {
    /// The nanosecond field names a sub-second offset, so it stays within
    /// one second.
    pub open spec fn wf(self) -> bool {
        0 <= self.nsec <= 999_999_999
    }

    pub fn new(sec: i64, nsec: i32) -> (r: Timespec)
        requires
            0 <= nsec <= 999_999_999,
        ensures
            r.sec == sec,
            r.nsec == nsec,
            r.wf(),
    {
        Timespec { sec, nsec }
    }
}

/// Broken-down civil time, tagged with the zone that produced it.
///
/// Field conventions follow the classic calendar layout: `tm_mday` is
/// 1-based, `tm_mon` is 0-based, `tm_year` counts years since 1900,
/// `tm_wday` counts from Sunday = 0, `tm_yday` is 0-based, `tm_isdst` is a
/// tri-state daylight-saving flag (positive: in effect, zero: not in
/// effect, negative: unknown), and `tm_utcoff` is signed seconds east of
/// UTC. `tm_nsec` is carried through conversions unchanged.
#[derive(Clone, Copy, PartialEq, Eq, Structural, Debug)]
pub struct Tm<Z> {
    pub tm_sec: i32,
    pub tm_min: i32,
    pub tm_hour: i32,
    pub tm_mday: i32,
    pub tm_mon: i32,
    pub tm_year: i32,
    pub tm_wday: i32,
    pub tm_yday: i32,
    pub tm_isdst: i32,
    pub tm_utcoff: i32,
    pub tm_nsec: i32,
    pub zone: Z,
}

} // verus!
