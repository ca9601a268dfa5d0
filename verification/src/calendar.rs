//! Proleptic-Gregorian calendar arithmetic.
//!
//! Day numbers count days since the Unix epoch, 1970-01-01. Internally the
//! computations shift the calendar so that years start on March 1: within a
//! 400-year era the leap day then falls at the end of a shifted year, which
//! makes the year/month/day split exact integer arithmetic.

use vstd::prelude::*;

verus! {

/// First epoch second this crate breaks down: 0000-03-01T00:00:00Z.
pub const MIN_BREAKDOWN_SEC: i64 = -62_162_035_200;

/// Last epoch second this crate breaks down: the final second of the
/// 5_368_710th 400-year era counted from 0000-03-01, the last whole era
/// whose years all fit the `tm_year` field.
pub const MAX_BREAKDOWN_SEC: i64 = 86_400 * 146_097 * 5_368_710 - 62_162_035_201;

/// A year has an intercalary day exactly when the Gregorian rule says so.
pub open spec fn is_leap_year(y: int) -> bool {
    y % 4 == 0 && (y % 100 != 0 || y % 400 == 0)
}

/// Day number of a proleptic-Gregorian date (month 1-based), as days since
/// 1970-01-01. Meaningful for 1 <= m <= 12; any day value is accepted and
/// counts on from the first of the month, which is how out-of-range day
/// fields normalize.
pub open spec fn days_from_civil(y: int, m: int, d: int) -> int {
    let yy = if m <= 2 { y - 1 } else { y };
    let era = yy / 400;
    let yoe = yy - era * 400;
    let mp = if m > 2 { m - 3 } else { m + 9 };
    let doy = (153 * mp + 2) / 5 + d - 1;
    let doe = yoe * 365 + yoe / 4 - yoe / 100 + doy;
    era * 146097 + doe - 719468
}

/// Epoch seconds of a calendar reading taken as UTC, with the month field
/// normalized first (month 13 counts into the next year, month -1 into the
/// previous one), as the classic calendar-to-epoch primitives do. All other
/// out-of-range fields normalize through plain day/second arithmetic.
pub open spec fn civil_to_epoch(year: int, mon: int, mday: int, hour: int, min: int, sec: int) -> int {
    days_from_civil(year + mon / 12, (mon % 12) + 1, mday) * 86400 + hour * 3600 + min * 60 + sec
}

/// Day of week of a day number, counted from Sunday = 0; day 0 (1970-01-01)
/// was a Thursday.
pub open spec fn weekday_of_day(day: int) -> int {
    (day + 4) % 7
}

/// Length of a month (1-based) in the given year.
pub open spec fn days_in_month(y: int, m: int) -> int {
    if m == 2 {
        if is_leap_year(y) {
            29
        } else {
            28
        }
    } else if m == 4 || m == 6 || m == 9 || m == 11 {
        30
    } else {
        31
    }
}

/// Days that precede March-shifted year `yoe` within its 400-year era.
pub open spec fn days_before_year(yoe: int) -> int {
    yoe * 365 + yoe / 4 - yoe / 100
}

/// The result of splitting a day number into its calendar reading.
pub struct CivilDate {
    /// Astronomical year (year 0 precedes year 1).
    pub year: i64,
    /// 1-based month.
    pub month: i32,
    /// 1-based day of month.
    pub day: i32,
    /// 0-based day of year.
    pub yday: i32,
}

impl CivilDate {
    pub open spec fn wf(self) -> bool {
        &&& 0 <= self.year <= 2_147_484_000
        &&& 1 <= self.month <= 12
        &&& 1 <= self.day <= 31
        &&& 0 <= self.yday <= 365
    }
}

/// Exec counterpart of [`days_from_civil`], over the ranges the
/// conversions feed it.
pub fn day_number_from_civil(y: i64, m: i64, d: i64) -> (r: i64)
    requires
        -2_400_000_000 <= y <= 2_400_000_000,
        1 <= m <= 12,
        -2_200_000_000 <= d <= 2_200_000_000,
    ensures
        r == days_from_civil(y as int, m as int, d as int),
        -1_000_000_000_000 <= r <= 1_000_000_000_000,
{
    let yy: i64 = if m <= 2 { y - 1 } else { y };
    // Shift by a multiple of 400 years so the era division is on a
    // non-negative value.
    let ya: u64 = (yy + 2_800_000_000) as u64;
    let era_shifted: u64 = ya / 400;
    let yoe: u64 = ya % 400;
    let mp: u64 = if m > 2 { (m - 3) as u64 } else { (m + 9) as u64 };
    let month_start: u64 = (153 * mp + 2) / 5;
    let year_start: u64 = 365 * yoe + yoe / 4 - yoe / 100;
    proof {
        let yyi = yy as int;
        let era = yyi / 400;
        vstd::arithmetic::div_mod::lemma_fundamental_div_mod(yyi, 400);
        vstd::arithmetic::div_mod::lemma_fundamental_div_mod_converse(
            yyi + 2_800_000_000, 400, era + 7_000_000, yyi % 400);
    }
    let days: i64 = (era_shifted as i64 - 7_000_000) * 146_097
        + (year_start as i64 + month_start as i64 + d - 1) - 719_468;
    days
}

} // verus!
