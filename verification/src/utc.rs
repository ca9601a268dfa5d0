//! The two UTC conversions: epoch seconds to broken-down time and back.
//!
//! Neither direction consults any time-zone state, so both are pure
//! arithmetic and fully verified. The central contract is the round trip:
//! breaking an instant down yields a calendar reading whose
//! [`civil_to_epoch`] value is the instant again, so assembling it returns
//! the seconds that went in.

use vstd::prelude::*;

use crate::calendar::{
    civil_to_epoch, day_number_from_civil, days_before_year, days_from_civil, days_in_month,
    is_leap_year, weekday_of_day, CivilDate, MAX_BREAKDOWN_SEC, MIN_BREAKDOWN_SEC,
};
use crate::types::{Timespec, Tm, Utc};

verus! {

/// Exec counterpart of [`days_before_year`], for year-of-era search.
fn days_before_year_exec(yoe: u64) -> (r: u64)
    requires
        yoe <= 400,
    ensures
        r == days_before_year(yoe as int),
        r <= 146096,
{
    365 * yoe + yoe / 4 - yoe / 100
}

/// Splits a day number, shifted so that day 0 is 0000-03-01, into its
/// calendar reading. Inverse of [`days_from_civil`]: the date handed back
/// maps to the day number that went in.
fn civil_from_day_number(z: u64) -> (c: CivilDate)
    requires
        z < 146_097 * 5_368_710,
    ensures
        c.wf(),
        c.day <= days_in_month(c.year as int, c.month as int),
        days_from_civil(c.year as int, c.month as int, c.day as int) == z - 719_468,
        c.yday == z - 719_468 - days_from_civil(c.year as int, 1, 1),
{
    let era: u64 = z / 146_097;
    let doe: u64 = z % 146_097;
    // Find the March-shifted year of the era whose days precede doe.
    let mut yoe: u64 = doe / 366;
    proof {
        assert(365 * (doe / 366) + (doe / 366) / 4 - (doe / 366) / 100 <= doe);
    }
    while yoe < 399 && days_before_year_exec(yoe + 1) <= doe
        invariant
            doe <= 146_096,
            yoe <= 399,
            days_before_year(yoe as int) <= doe,
        decreases 399 - yoe,
    {
        yoe = yoe + 1;
    }
    proof {
        assert(days_before_year(399) == 145_731);
        if yoe < 399 {
            assert(days_before_year(yoe as int + 1) > doe);
            assert(days_before_year(yoe as int + 1) - days_before_year(yoe as int) <= 366);
        }
    }
    let doy: u64 = doe - days_before_year_exec(yoe);
    let mp: u64 = (5 * doy + 2) / 153;
    proof {
        assert(153 * mp <= 5 * doy + 2 < 153 * (mp + 1));
    }
    let day: u64 = doy - (153 * mp + 2) / 5 + 1;
    let month: u64 = if mp < 10 { mp + 3 } else { mp - 9 };
    let year_base: u64 = era * 400 + yoe;
    let year: u64 = if mp >= 10 { year_base + 1 } else { year_base };
    let leap: bool = year % 4 == 0 && (year % 100 != 0 || year % 400 == 0);
    let yday: u64 = if mp >= 10 { doy - 306 } else if leap { doy + 60 } else { doy + 59 };
    proof {
        lemma_split_matches_civil(z as int, era as int, doe as int, yoe as int, doy as int,
            mp as int, day as int, month as int, year as int);
        lemma_yday_from_january(era as int, yoe as int, doy as int, mp as int, year as int);
        lemma_day_within_month(era as int, yoe as int, doy as int, mp as int, day as int,
            month as int, year as int);
    }
    CivilDate { year: year as i64, month: month as i32, day: day as i32, yday: yday as i32 }
}

/// Stepping a non-negative value down by one lowers its quotient exactly
/// when the value sat on a multiple of the divisor.
proof fn lemma_pred_div(a: int, d: int)
    requires
        1 <= a,
        2 <= d,
    ensures
        a / d - (a - 1) / d == if a % d == 0 { 1int } else { 0int },
{
    vstd::arithmetic::div_mod::lemma_fundamental_div_mod(a, d);
    let q = a / d;
    let r = a % d;
    if r == 0 {
        assert(a - 1 == (q - 1) * d + (d - 1)) by (nonlinear_arith)
            requires
                a == d * q,
        ;
        vstd::arithmetic::div_mod::lemma_fundamental_div_mod_converse(a - 1, d, q - 1, d - 1);
    } else {
        assert(a - 1 == q * d + (r - 1)) by (nonlinear_arith)
            requires
                a == d * q + r,
        ;
        vstd::arithmetic::div_mod::lemma_fundamental_div_mod_converse(a - 1, d, q, r - 1);
    }
}

/// The day the split lands on exists in its month: it is at most the
/// month's length, with February 29 only in leap years.
proof fn lemma_day_within_month(
    era: int, yoe: int, doy: int, mp: int, day: int, month: int, year: int,
)
    requires
        0 <= yoe <= 399,
        0 <= doy <= 365,
        mp == (5 * doy + 2) / 153,
        0 <= mp <= 11,
        day == doy - (153 * mp + 2) / 5 + 1,
        month == if mp < 10 { mp + 3 } else { mp - 9 },
        year == if mp >= 10 { era * 400 + yoe + 1 } else { era * 400 + yoe },
        doy == 365 ==> (yoe == 399 || days_before_year(yoe + 1) - days_before_year(yoe) == 366),
    ensures
        day <= days_in_month(year, month),
{
    assert(153 * mp <= 5 * doy + 2 < 153 * (mp + 1));
    if mp == 11 && day >= 29 {
        // Day 29 of February is the last day of a 366-day shifted year, so
        // the civil year it falls in keeps the Gregorian leap rule.
        assert(doy == 365 && day == 29);
        if yoe == 399 {
            vstd::arithmetic::div_mod::lemma_fundamental_div_mod_converse(year, 400, era + 1, 0);
            vstd::arithmetic::div_mod::lemma_fundamental_div_mod_converse(
                year, 4, (era + 1) * 100, 0);
            assert(is_leap_year(year));
        } else {
            let a = yoe + 1;
            lemma_pred_div(a, 4);
            lemma_pred_div(a, 100);
            assert(a % 4 == 0 && a % 100 != 0);
            vstd::arithmetic::div_mod::lemma_fundamental_div_mod(a, 4);
            vstd::arithmetic::div_mod::lemma_fundamental_div_mod(a, 100);
            vstd::arithmetic::div_mod::lemma_fundamental_div_mod_converse(
                year, 4, era * 100 + a / 4, a % 4);
            vstd::arithmetic::div_mod::lemma_fundamental_div_mod_converse(
                year, 100, era * 4 + a / 100, a % 100);
            assert(is_leap_year(year));
        }
    }
}

/// The calendar split produced by the break-down maps back to its day
/// number under the forward formula.
proof fn lemma_split_matches_civil(
    z: int, era: int, doe: int, yoe: int, doy: int, mp: int, day: int, month: int, year: int,
)
    requires
        z == era * 146_097 + doe,
        0 <= doe < 146_097,
        0 <= yoe <= 399,
        doy == doe - days_before_year(yoe),
        0 <= doy <= 365,
        mp == (5 * doy + 2) / 153,
        day == doy - (153 * mp + 2) / 5 + 1,
        month == if mp < 10 { mp + 3 } else { mp - 9 },
        year == if mp >= 10 { era * 400 + yoe + 1 } else { era * 400 + yoe },
    ensures
        days_from_civil(year, month, day) == z - 719_468,
        0 <= mp <= 11,
        1 <= month <= 12,
        1 <= day <= 31,
{
    assert(0 <= mp <= 11);
    assert(153 * mp <= 5 * doy + 2 < 153 * (mp + 1));
    assert(1 <= day <= 31);
    let yy = if month <= 2 { year - 1 } else { year };
    assert(yy == era * 400 + yoe);
    vstd::arithmetic::div_mod::lemma_fundamental_div_mod_converse(yy, 400, era, yoe);
    assert(yy / 400 == era);
}

/// Day-of-year arithmetic: the March-shifted day of year, adjusted by the
/// month block, lands exactly `days - days_from_civil(year, 1, 1)` days
/// after January 1 of the civil year.
proof fn lemma_yday_from_january(era: int, yoe: int, doy: int, mp: int, year: int)
    requires
        0 <= yoe <= 399,
        0 <= doy <= 365,
        0 <= mp <= 11,
        mp >= 10 ==> doy >= 306,
        mp < 10 ==> doy <= 305,
        year == if mp >= 10 { era * 400 + yoe + 1 } else { era * 400 + yoe },
    ensures
        ({
            let days = era * 146_097 + days_before_year(yoe) + doy - 719_468;
            let yday = if mp >= 10 { doy - 306 } else if is_leap_year(year) { doy + 60 } else {
                doy + 59
            };
            yday == days - days_from_civil(year, 1, 1)
        }),
{
    let days = era * 146_097 + days_before_year(yoe) + doy - 719_468;
    if mp >= 10 {
        // January or February: the civil year began in the same shifted
        // year of the same era.
        let yy = year - 1;
        assert(yy == era * 400 + yoe);
        vstd::arithmetic::div_mod::lemma_fundamental_div_mod_converse(yy, 400, era, yoe);
        assert(days_from_civil(year, 1, 1) == era * 146_097 + days_before_year(yoe) + 306
            - 719_468);
    } else if yoe >= 1 {
        // March through December, not at the start of an era: January 1
        // fell in the previous shifted year of the same era.
        let yy = year - 1;
        assert(yy == era * 400 + (yoe - 1));
        vstd::arithmetic::div_mod::lemma_fundamental_div_mod_converse(yy, 400, era, yoe - 1);
        assert(days_from_civil(year, 1, 1) == era * 146_097 + days_before_year(yoe - 1) + 306
            - 719_468);
        vstd::arithmetic::div_mod::lemma_fundamental_div_mod_converse(year, 400, era, yoe);
        vstd::arithmetic::div_mod::lemma_fundamental_div_mod_converse(
            year, 4, era * 100 + yoe / 4, yoe % 4);
        vstd::arithmetic::div_mod::lemma_fundamental_div_mod_converse(
            year, 100, era * 4 + yoe / 100, yoe % 100);
        assert(year % 4 == yoe % 4 && year % 100 == yoe % 100 && year % 400 == yoe);
        assert(days_before_year(yoe) - days_before_year(yoe - 1) == 365 + (if yoe % 4 == 0 {
            1int
        } else {
            0int
        }) - (if yoe % 100 == 0 { 1int } else { 0int })) by {
            vstd::arithmetic::div_mod::lemma_fundamental_div_mod(yoe, 4);
            vstd::arithmetic::div_mod::lemma_fundamental_div_mod(yoe, 100);
            if yoe % 4 == 0 {
                vstd::arithmetic::div_mod::lemma_fundamental_div_mod_converse(
                    yoe - 1, 4, yoe / 4 - 1, 3);
            } else {
                vstd::arithmetic::div_mod::lemma_fundamental_div_mod_converse(
                    yoe - 1, 4, yoe / 4, yoe % 4 - 1);
            }
            if yoe % 100 == 0 {
                vstd::arithmetic::div_mod::lemma_fundamental_div_mod_converse(
                    yoe - 1, 100, yoe / 100 - 1, 99);
            } else {
                vstd::arithmetic::div_mod::lemma_fundamental_div_mod_converse(
                    yoe - 1, 100, yoe / 100, yoe % 100 - 1);
            }
        }
        // A year of era divisible by 100 but not 400 is not a leap year,
        // and within an era only yoe == 0 is divisible by 400.
        if yoe % 100 == 0 {
            assert(yoe % 4 == 0) by {
                vstd::arithmetic::div_mod::lemma_fundamental_div_mod(yoe, 100);
                vstd::arithmetic::div_mod::lemma_fundamental_div_mod_converse(
                    yoe, 4, 25 * (yoe / 100), 0);
            }
        }
    } else {
        // March through December of a year divisible by 400: January 1
        // fell in the last shifted year of the previous era.
        let yy = year - 1;
        assert(year == era * 400 && yoe == 0);
        assert(yy == (era - 1) * 400 + 399);
        vstd::arithmetic::div_mod::lemma_fundamental_div_mod_converse(yy, 400, era - 1, 399);
        assert(days_from_civil(year, 1, 1) == (era - 1) * 146_097 + days_before_year(399) + 306
            - 719_468);
        assert(days_before_year(399) == 145_731);
        assert(days_before_year(0) == 0);
        vstd::arithmetic::div_mod::lemma_fundamental_div_mod_converse(year, 4, era * 100, 0);
        vstd::arithmetic::div_mod::lemma_fundamental_div_mod_converse(year, 400, era, 0);
        assert(is_leap_year(year));
    }
}

/// Breaks an instant down into its UTC calendar reading.
///
/// Succeeds exactly on the supported second range; the reading then
/// carries a zero UTC offset, no daylight saving, the instant's
/// nanoseconds unchanged, and calendar fields that map back to the very
/// second that went in.
#[verifier::rlimit(50)]
pub fn break_down_utc(ts: &Timespec) -> (r: Option<Tm<Utc>>)
    ensures
        r is Some <==> MIN_BREAKDOWN_SEC <= ts.sec <= MAX_BREAKDOWN_SEC,
        r matches Some(t) ==> {
            &&& t.tm_utcoff == 0
            &&& t.tm_isdst == 0
            &&& t.tm_nsec == ts.nsec
            &&& 0 <= t.tm_sec <= 59
            &&& 0 <= t.tm_min <= 59
            &&& 0 <= t.tm_hour <= 23
            &&& 1 <= t.tm_mday <= 31
            &&& t.tm_mday <= days_in_month(t.tm_year + 1900, t.tm_mon + 1)
            &&& 0 <= t.tm_mon <= 11
            &&& 0 <= t.tm_wday <= 6
            &&& 0 <= t.tm_yday <= 365
            &&& civil_to_epoch(t.tm_year + 1900, t.tm_mon as int, t.tm_mday as int,
                t.tm_hour as int, t.tm_min as int, t.tm_sec as int) == ts.sec
            &&& t.tm_wday == weekday_of_day(days_from_civil(t.tm_year + 1900, t.tm_mon + 1,
                t.tm_mday as int))
            &&& t.tm_yday == days_from_civil(t.tm_year + 1900, t.tm_mon + 1, t.tm_mday as int)
                - days_from_civil(t.tm_year + 1900, 1, 1)
        },
{
    if ts.sec < MIN_BREAKDOWN_SEC || ts.sec > MAX_BREAKDOWN_SEC {
        return None;
    }
    // Shift so that second 0 is 0000-03-01T00:00:00Z, making every
    // intermediate value non-negative.
    let zsec: u64 = (ts.sec + 62_162_035_200) as u64;
    let z: u64 = zsec / 86_400;
    let sod: u64 = zsec % 86_400;
    let c: CivilDate = civil_from_day_number(z);
    let hour: u64 = sod / 3_600;
    let rem: u64 = sod % 3_600;
    let wday: u64 = (z + 3) % 7;
    proof {
        // Day 0 of the shift, 0000-03-01, was a Wednesday; 719_467 is a
        // multiple of 7, so shifting the day count by 719_468 moves the
        // weekday anchor from 4 to 3.
        vstd::arithmetic::div_mod::lemma_mod_add_multiples_vanish(z - 719_468 + 4, 7);
        vstd::arithmetic::div_mod::lemma_mod_add_multiples_vanish(z - 719_468 + 4 + 7 * 102_781
            - 7, 7);
        assert((z + 3) % 7 == weekday_of_day(z - 719_468));
    }
    Some(
        Tm {
            tm_sec: (rem % 60) as i32,
            tm_min: (rem / 60) as i32,
            tm_hour: hour as i32,
            tm_mday: c.day,
            tm_mon: c.month - 1,
            tm_year: (c.year - 1900) as i32,
            tm_wday: wday as i32,
            tm_yday: c.yday,
            tm_isdst: 0,
            tm_utcoff: 0,
            tm_nsec: ts.nsec,
            zone: Utc,
        },
    )
}

/// Assembles a UTC calendar reading back into the instant it denotes.
///
/// Pure proleptic-Gregorian arithmetic over the seven calendar fields; the
/// carried offset, weekday, and day-of-year fields are ignored, and
/// out-of-range fields normalize as [`civil_to_epoch`] states. Total: every
/// reading representable in the fields has its epoch seconds within `i64`.
pub fn assemble_utc(t: &Tm<Utc>) -> (r: Timespec)
    ensures
        r.sec == civil_to_epoch(t.tm_year + 1900, t.tm_mon as int, t.tm_mday as int,
            t.tm_hour as int, t.tm_min as int, t.tm_sec as int),
        r.nsec == t.tm_nsec,
{
    // Normalize the month on a value shifted by a multiple of twelve so
    // the division is on a non-negative value.
    let mshift: u64 = (t.tm_mon as i64 + 2_147_483_652) as u64;
    let yadd: i64 = (mshift / 12) as i64 - 178_956_971;
    let m1: i64 = (mshift % 12) as i64;
    proof {
        let mon = t.tm_mon as int;
        vstd::arithmetic::div_mod::lemma_fundamental_div_mod(mon, 12);
        vstd::arithmetic::div_mod::lemma_fundamental_div_mod_converse(
            mon + 2_147_483_652, 12, mon / 12 + 178_956_971, mon % 12);
    }
    let year: i64 = t.tm_year as i64 + 1900 + yadd;
    let days: i64 = day_number_from_civil(year, m1 + 1, t.tm_mday as i64);
    let sec: i64 = days * 86_400 + (t.tm_hour as i64) * 3_600 + (t.tm_min as i64) * 60
        + (t.tm_sec as i64);
    Timespec { sec, nsec: t.tm_nsec }
}

} // verus!

