use civiltime::windows::{
    filetime_from_unix_seconds, filetime_to_unix_seconds, system_time_from_tm,
    tm_local_from_system_time, tm_utc_from_system_time, FileTime, SystemTimeFields,
};
use civiltime::{Tm, Utc};

#[test]
fn unix_epoch_in_ticks() {
    // 1970-01-01 is 11_644_473_600 seconds past the tick epoch.
    let ft = filetime_from_unix_seconds(0);
    assert_eq!(ft.high, 0x019D_B1DE);
    assert_eq!(ft.low, 0xD53E_8000);
    assert_eq!(filetime_to_unix_seconds(&ft), 0);
}

#[test]
fn tick_conversion_round_trips() {
    for &sec in [0i64, 1, -1, -11_644_473_600, 951_782_400, 910_692_730_085].iter() {
        let ft = filetime_from_unix_seconds(sec);
        assert_eq!(filetime_to_unix_seconds(&ft), sec);
    }
}

#[test]
fn sub_second_ticks_round_toward_tick_epoch() {
    let ft = filetime_from_unix_seconds(1);
    let later = FileTime { low: ft.low + 9_999_999, high: ft.high };
    assert_eq!(filetime_to_unix_seconds(&later), 1);
}

#[test]
fn system_time_marshalling_round_trips() {
    let sys = SystemTimeFields {
        year: 2000,
        month: 2,
        day_of_week: 2,
        day: 29,
        hour: 23,
        minute: 59,
        second: 58,
        milliseconds: 0,
    };
    let tm: Tm<Utc> = tm_utc_from_system_time(&sys, 5);
    assert_eq!(tm.tm_year, 100);
    assert_eq!(tm.tm_mon, 1);
    assert_eq!(tm.tm_mday, 29);
    assert_eq!(tm.tm_wday, 2);
    assert_eq!(tm.tm_utcoff, 0);
    assert_eq!(tm.tm_nsec, 5);
    let back = system_time_from_tm(&tm);
    assert_eq!(back, sys);
}

#[test]
fn local_bias_negates_into_seconds_east() {
    let sys = SystemTimeFields {
        year: 1995,
        month: 7,
        day_of_week: 0,
        day: 16,
        hour: 1,
        minute: 2,
        second: 3,
        milliseconds: 0,
    };
    // A bias of 300 minutes west of UTC is an offset of -18_000 seconds east.
    let tm = tm_local_from_system_time(&sys, 300, 0);
    assert_eq!(tm.tm_utcoff, -18_000);
    assert_eq!(tm.tm_year, 95);
    assert_eq!(tm.tm_mon, 6);
    // The sign flips for zones east of UTC.
    assert_eq!(tm_local_from_system_time(&sys, -60, 0).tm_utcoff, 3_600);
}
