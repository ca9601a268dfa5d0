use civiltime::calendar::{MAX_BREAKDOWN_SEC, MIN_BREAKDOWN_SEC};
use civiltime::{assemble_utc, break_down_utc, Timespec, Tm, Utc};

fn tm_utc(year: i32, mon: i32, mday: i32, hour: i32, min: i32, sec: i32) -> Tm<Utc> {
    Tm {
        tm_sec: sec,
        tm_min: min,
        tm_hour: hour,
        tm_mday: mday,
        tm_mon: mon,
        tm_year: year,
        tm_wday: 0,
        tm_yday: 0,
        tm_isdst: 0,
        tm_utcoff: 0,
        tm_nsec: 0,
        zone: Utc,
    }
}

#[test]
fn epoch_origin_breaks_down() {
    let tm = break_down_utc(&Timespec::new(0, 0)).unwrap();
    assert_eq!(tm.tm_year, 70);
    assert_eq!(tm.tm_mon, 0);
    assert_eq!(tm.tm_mday, 1);
    assert_eq!(tm.tm_hour, 0);
    assert_eq!(tm.tm_min, 0);
    assert_eq!(tm.tm_sec, 0);
    assert_eq!(tm.tm_wday, 4);
    assert_eq!(tm.tm_yday, 0);
    assert_eq!(tm.tm_utcoff, 0);
    assert_eq!(tm.tm_isdst, 0);
}

#[test]
fn leap_day_of_2000_breaks_down_and_returns() {
    let tm = break_down_utc(&Timespec::new(951_782_400, 0)).unwrap();
    assert_eq!(tm.tm_year, 100);
    assert_eq!(tm.tm_mon, 1);
    assert_eq!(tm.tm_mday, 29);
    assert_eq!(tm.tm_hour, 0);
    assert_eq!(tm.tm_min, 0);
    assert_eq!(tm.tm_sec, 0);
    assert_eq!(assemble_utc(&tm).sec, 951_782_400);
}

#[test]
fn utc_round_trip_representative_seconds() {
    let samples: Vec<i64> = vec![
        0,
        1,
        -1,
        59,
        -59,
        86_399,
        -86_400,
        951_782_400,
        951_868_799,
        1_000_000_000,
        -12_345_678_901,
        -2_208_988_800, // 1900-01-01T00:00:00Z
        253_402_300_799, // 9999-12-31T23:59:59Z
        MIN_BREAKDOWN_SEC,
        MIN_BREAKDOWN_SEC + 1,
        MAX_BREAKDOWN_SEC,
        MAX_BREAKDOWN_SEC - 1,
    ];
    for &sec in samples.iter() {
        let tm = break_down_utc(&Timespec::new(sec, 0)).unwrap();
        assert_eq!(assemble_utc(&tm).sec, sec);
    }
}

#[test]
fn out_of_range_seconds_are_refused() {
    assert!(break_down_utc(&Timespec::new(MIN_BREAKDOWN_SEC - 1, 0)).is_none());
    assert!(break_down_utc(&Timespec::new(MAX_BREAKDOWN_SEC + 1, 0)).is_none());
    assert!(break_down_utc(&Timespec::new(i64::MIN, 0)).is_none());
    assert!(break_down_utc(&Timespec::new(i64::MAX, 0)).is_none());
}

#[test]
fn utc_offset_is_zero_across_inputs() {
    for &sec in [0i64, -86_400, 951_782_400, 4_102_444_800, MIN_BREAKDOWN_SEC].iter() {
        let tm = break_down_utc(&Timespec::new(sec, 0)).unwrap();
        assert_eq!(tm.tm_utcoff, 0);
    }
}

#[test]
fn nanoseconds_pass_through_utc() {
    for &nsec in [0i32, 1, 123_456_789, 999_999_999].iter() {
        for &sec in [0i64, -1, 951_782_400].iter() {
            let tm = break_down_utc(&Timespec::new(sec, nsec)).unwrap();
            assert_eq!(tm.tm_nsec, nsec);
            let back = assemble_utc(&tm);
            assert_eq!(back.nsec, nsec);
            assert_eq!(back.sec, sec);
        }
    }
}

#[test]
fn weekdays_match_known_dates() {
    // 2000-01-01 was a Saturday.
    assert_eq!(break_down_utc(&Timespec::new(946_684_800, 0)).unwrap().tm_wday, 6);
    // 2000-03-01 was a Wednesday.
    assert_eq!(break_down_utc(&Timespec::new(951_868_800, 0)).unwrap().tm_wday, 3);
    // 2001-09-09 was a Sunday.
    assert_eq!(break_down_utc(&Timespec::new(1_000_000_000, 0)).unwrap().tm_wday, 0);
    // 1969-12-31 was a Wednesday.
    assert_eq!(break_down_utc(&Timespec::new(-1, 0)).unwrap().tm_wday, 3);
}

#[test]
fn day_of_year_boundaries() {
    // January 1 has day-of-year 0.
    assert_eq!(break_down_utc(&Timespec::new(1_609_459_200, 0)).unwrap().tm_yday, 0);
    // December 31 of leap year 2020 has day-of-year 365.
    let tm = break_down_utc(&Timespec::new(1_609_372_800, 0)).unwrap();
    assert_eq!(tm.tm_mon, 11);
    assert_eq!(tm.tm_mday, 31);
    assert_eq!(tm.tm_yday, 365);
    // December 31 of common year 2021 has day-of-year 364.
    assert_eq!(break_down_utc(&Timespec::new(1_640_908_800, 0)).unwrap().tm_yday, 364);
}

#[test]
fn earliest_supported_second_is_march_of_year_zero() {
    let tm = break_down_utc(&Timespec::new(MIN_BREAKDOWN_SEC, 0)).unwrap();
    assert_eq!(tm.tm_year, -1900);
    assert_eq!(tm.tm_mon, 2);
    assert_eq!(tm.tm_mday, 1);
    assert_eq!(tm.tm_hour, 0);
    // Year 0 is divisible by 400, hence leap: March 1 is day 60.
    assert_eq!(tm.tm_yday, 60);
    assert_eq!(assemble_utc(&tm).sec, MIN_BREAKDOWN_SEC);
}

#[test]
fn assemble_normalizes_month_overflow() {
    // Month 12 of 2000 is January 2001.
    let denormal = tm_utc(100, 12, 1, 0, 0, 0);
    let normal = tm_utc(101, 0, 1, 0, 0, 0);
    assert_eq!(assemble_utc(&denormal).sec, assemble_utc(&normal).sec);
    // Month -1 of 2000 is December 1999.
    let denormal = tm_utc(100, -1, 1, 0, 0, 0);
    let normal = tm_utc(99, 11, 1, 0, 0, 0);
    assert_eq!(assemble_utc(&denormal).sec, assemble_utc(&normal).sec);
}

#[test]
fn assemble_normalizes_day_and_time_overflow() {
    // February 30 of 2000 counts on to March 1.
    assert_eq!(assemble_utc(&tm_utc(100, 1, 30, 0, 0, 0)).sec, 951_868_800);
    // Second 86_400 of a day is midnight of the next.
    assert_eq!(assemble_utc(&tm_utc(70, 0, 1, 0, 0, 86_400)).sec, 86_400);
    // Hour -1 backs into the previous day.
    assert_eq!(assemble_utc(&tm_utc(70, 0, 1, -1, 0, 0)).sec, -3_600);
}

#[test]
fn assemble_ignores_offset_weekday_and_yday_fields() {
    let mut tm = tm_utc(100, 1, 29, 12, 30, 45);
    tm.tm_utcoff = 3_600;
    tm.tm_wday = 6;
    tm.tm_yday = 17;
    tm.tm_isdst = 1;
    assert_eq!(assemble_utc(&tm).sec, 951_782_400 + 12 * 3_600 + 30 * 60 + 45);
}
