use localtime::calendar::{civil_to_days, is_leap, month_length, valid_date};
use localtime::filetime::{file_time_as_u64, file_time_to_unix_seconds, time_to_file_time};
use localtime::local::{instant_query, naive_to_tm};
use localtime::tm::{system_time_to_tm, tm_to_system_time, yday};
use localtime::{
    naive_to_local, now, tm_to_datetime, DateTime, FileTime, FixedOffset, HostCalendar, HostFault,
    InstantQuery, LocalReading, LocalResult, NaiveDateTime, Timespec, Tm, ZoneBias,
};

fn ticks_of_sec(sec: i64) -> FileTime {
    Timespec { sec, nsec: 0 }.file_time().unwrap()
}

fn calendar(year: u16, month: u16, day: u16, hour: u16, minute: u16, second: u16) -> HostCalendar {
    HostCalendar { year, month, day_of_week: 0, day, hour, minute, second, milliseconds: 0 }
}

fn blank_tm() -> Tm {
    Tm {
        tm_sec: 0,
        tm_min: 0,
        tm_hour: 0,
        tm_mday: 1,
        tm_mon: 0,
        tm_year: 123,
        tm_wday: 0,
        tm_yday: 0,
        tm_isdst: 0,
        tm_utcoff: 0,
        tm_nsec: 0,
    }
}

// A zone five hours behind UTC, without daylight saving.
fn five_behind() -> ZoneBias {
    ZoneBias { bias: 300, standard_bias: 0 }
}

#[test]
fn epoch_bridge_is_exact() {
    let ft = Timespec { sec: 0, nsec: 0 }.file_time().unwrap();
    assert_eq!(file_time_as_u64(&ft), 116_444_736_000_000_000);
    let back = Timespec::from_file_time(&ft);
    assert_eq!(back, Timespec { sec: 0, nsec: 0 });
}

#[test]
fn ticks_split_into_halves() {
    let ft = time_to_file_time(1_685_620_800).unwrap();
    assert_eq!(ft, FileTime { low: 2_539_134_976, high: 31_036_544 });
    assert_eq!(file_time_as_u64(&ft), 133_300_944_000_000_000);
    assert_eq!(file_time_to_unix_seconds(&ft), 1_685_620_800);
}

#[test]
fn ticks_out_of_host_range() {
    assert_eq!(time_to_file_time(-11_644_473_600), Some(FileTime { low: 0, high: 0 }));
    assert_eq!(time_to_file_time(-11_644_473_601), None);
    assert_eq!(time_to_file_time(i64::MAX), None);
}

#[test]
fn ticks_before_epoch_round_toward_zero() {
    // Half a second before the Unix epoch.
    let t: u64 = 116_444_736_000_000_000 - 5_000_000;
    let ft = FileTime { low: (t % (1u64 << 32)) as u32, high: (t >> 32) as u32 };
    assert_eq!(file_time_to_unix_seconds(&ft), 0);
    let t: u64 = 116_444_736_000_000_000 - 15_000_000;
    let ft = FileTime { low: (t % (1u64 << 32)) as u32, high: (t >> 32) as u32 };
    assert_eq!(file_time_to_unix_seconds(&ft), -1);
}

#[test]
fn leap_second_is_folded() {
    let tm = Tm { tm_sec: 60, tm_min: 59, tm_hour: 23, tm_mday: 31, tm_mon: 11, tm_year: 116, ..blank_tm() };
    match tm_to_datetime(tm) {
        Ok(LocalResult::Single(dt)) => {
            assert_eq!(dt.local.second, 59);
            assert_eq!(dt.local.nanosecond, 1_000_000_000);
            assert_eq!(dt.local.minute, 59);
        }
        other => panic!("unexpected {:?}", other),
    }
}

#[test]
fn offset_sign_five_hours_behind() {
    let d = NaiveDateTime::new(2023, 6, 1, 12, 0, 0, 0);
    assert_eq!(
        instant_query(&d, true),
        Ok(Some(InstantQuery::Local(calendar(2023, 6, 1, 12, 0, 0))))
    );
    // The host turns 12:00 local into 17:00 UTC.
    let sec: i64 = 1_685_638_800;
    let reading = LocalReading {
        calendar: calendar(2023, 6, 1, 12, 0, 0),
        ticks: ticks_of_sec(1_685_620_800),
        zone: five_behind(),
    };
    match naive_to_local(&d, true, sec, &reading) {
        Ok(LocalResult::Single(dt)) => {
            assert_eq!(dt.timestamp(), 1_685_638_800);
            assert_eq!(dt.offset().local_minus_utc(), -18_000);
            assert_eq!(dt.naive_local(), d);
        }
        other => panic!("unexpected {:?}", other),
    }
}

#[test]
fn utc_query_is_marked_utc() {
    let d = NaiveDateTime::new(2023, 6, 1, 17, 0, 0, 0);
    assert_eq!(
        instant_query(&d, false),
        Ok(Some(InstantQuery::Utc(calendar(2023, 6, 1, 17, 0, 0))))
    );
}

#[test]
fn round_trip_keeps_fields_and_nanoseconds() {
    let d = NaiveDateTime::new(2023, 6, 1, 12, 34, 56, 789_000_123);
    let local_sec: i64 = 1_685_620_800 + 34 * 60 + 56;
    let sec = local_sec + 18_000;
    let reading = LocalReading {
        calendar: calendar(2023, 6, 1, 12, 34, 56),
        ticks: ticks_of_sec(local_sec),
        zone: five_behind(),
    };
    let dt: DateTime = naive_to_local(&d, true, sec, &reading).unwrap().single().unwrap();
    assert_eq!(dt.naive_local(), d);
    assert_eq!(dt.timestamp(), sec);
    assert_eq!(dt.timestamp_subsec_nanos(), 789_000_123);
}

#[test]
fn dst_flag_follows_offset() {
    // Daylight time: four hours behind against a standard five.
    let sec: i64 = 1_685_638_800;
    let reading = LocalReading {
        calendar: calendar(2023, 6, 1, 13, 0, 0),
        ticks: ticks_of_sec(sec - 14_400),
        zone: five_behind(),
    };
    let tm = Timespec { sec, nsec: 5 }.local(&reading).unwrap();
    assert_eq!(tm.tm_utcoff, -14_400);
    assert_eq!(tm.tm_isdst, 1);
    assert_eq!(tm.tm_nsec, 5);
    assert_eq!(tm.tm_hour, 13);
    assert_eq!(tm.tm_mon, 5);
    assert_eq!(tm.tm_year, 123);
    assert_eq!(tm.tm_yday, 151);
    let reading = LocalReading { ticks: ticks_of_sec(sec - 18_000), ..reading };
    let tm = Timespec { sec, nsec: 0 }.local(&reading).unwrap();
    assert_eq!(tm.tm_utcoff, -18_000);
    assert_eq!(tm.tm_isdst, 0);
}

#[test]
fn invalid_date_has_no_instant() {
    let d = NaiveDateTime::new(2023, 2, 30, 0, 0, 0, 0);
    assert_eq!(instant_query(&d, true), Ok(None));
    assert_eq!(instant_query(&d, false), Ok(None));
    let reading = LocalReading {
        calendar: calendar(2023, 3, 2, 0, 0, 0),
        ticks: ticks_of_sec(1_677_715_200),
        zone: ZoneBias { bias: 0, standard_bias: 0 },
    };
    assert_eq!(naive_to_local(&d, true, 1_677_715_200, &reading), Ok(LocalResult::NoMatch));
}

#[test]
fn invalid_time_of_day_has_no_instant() {
    let tm = Tm { tm_hour: 24, ..blank_tm() };
    assert_eq!(tm_to_datetime(tm), Ok(LocalResult::NoMatch));
    let tm = Tm { tm_nsec: -1, ..blank_tm() };
    assert_eq!(tm_to_datetime(tm), Ok(LocalResult::NoMatch));
}

#[test]
fn year_beyond_host_record_is_a_fault() {
    let d = NaiveDateTime::new(70_000, 1, 1, 0, 0, 0, 0);
    assert_eq!(instant_query(&d, true), Err(HostFault::OutOfHostRange));
}

#[test]
fn host_record_with_bad_date_is_a_fault() {
    let tm = Tm { tm_mon: 12, ..blank_tm() };
    assert_eq!(tm_to_datetime(tm), Err(HostFault::InvalidDate));
}

#[test]
fn offset_beyond_a_day_is_a_fault() {
    let tm = Tm { tm_utcoff: 86_400, ..blank_tm() };
    assert_eq!(tm_to_datetime(tm), Err(HostFault::InvalidOffset));
    let tm = Tm { tm_utcoff: -86_399, ..blank_tm() };
    assert!(matches!(tm_to_datetime(tm), Ok(LocalResult::Single(_))));
}

#[test]
fn offset_beyond_32_bits_is_a_fault() {
    let reading = LocalReading {
        calendar: calendar(2023, 1, 1, 0, 0, 0),
        ticks: ticks_of_sec(1_672_531_200),
        zone: five_behind(),
    };
    let ts = Timespec { sec: -10_000_000_000, nsec: 0 };
    assert_eq!(ts.local(&reading), Err(HostFault::OffsetOverflow));
}

#[test]
fn now_from_a_sound_reading() {
    let ts = Timespec { sec: 1_685_638_800, nsec: 250 };
    let reading = LocalReading {
        calendar: calendar(2023, 6, 1, 12, 0, 0),
        ticks: ticks_of_sec(1_685_620_800),
        zone: five_behind(),
    };
    let dt = now(ts, &reading).unwrap();
    assert_eq!(dt.timestamp(), 1_685_638_800);
    assert_eq!(dt.timestamp_subsec_nanos(), 250);
    assert_eq!(dt.offset, FixedOffset { secs: -18_000 });
}

#[test]
fn now_without_single_instant_is_a_fault() {
    let ts = Timespec { sec: 1_685_638_800, nsec: 0 };
    let reading = LocalReading {
        calendar: calendar(2023, 6, 1, 25, 0, 0),
        ticks: ticks_of_sec(1_685_620_800),
        zone: five_behind(),
    };
    assert_eq!(now(ts, &reading), Err(HostFault::NotSingle));
}

#[test]
fn clock_reads_after_epoch() {
    let ts = Timespec::now().unwrap();
    assert!(ts.sec > 1_600_000_000);
    assert!(ts.nsec >= 0 && ts.nsec < 1_000_000_000);
}

#[test]
fn day_of_year_closed_form() {
    assert_eq!(yday(124, 3, 1), 60);
    assert_eq!(yday(123, 3, 1), 59);
    assert_eq!(yday(123, 1, 1), 0);
    assert_eq!(yday(123, 12, 31), 365);
    // One day ahead of the calendar in August.
    assert_eq!(yday(123, 8, 1), 213);
}

#[test]
fn civil_days() {
    assert_eq!(civil_to_days(1970, 1, 1), 0);
    assert_eq!(civil_to_days(2000, 3, 1), 11_017);
    assert_eq!(civil_to_days(1969, 12, 31), -1);
    assert_eq!(civil_to_days(1, 1, 1), -719_162);
    assert!(valid_date(2024, 2, 29));
    assert!(!valid_date(1900, 2, 29));
    assert!(valid_date(2000, 2, 29));
    assert!(!valid_date(2023, 4, 31));
}

#[test]
fn host_record_conversions() {
    let tm = Tm { tm_sec: 7, tm_min: 8, tm_hour: 9, tm_mday: 10, tm_mon: 10, tm_year: 123, tm_wday: 5, ..blank_tm() };
    let sys = tm_to_system_time(&tm).unwrap();
    assert_eq!(
        sys,
        HostCalendar { year: 2023, month: 11, day_of_week: 5, day: 10, hour: 9, minute: 8, second: 7, milliseconds: 0 }
    );
    let mut back = Tm { tm_isdst: -1, tm_utcoff: 3600, tm_nsec: 9, ..blank_tm() };
    system_time_to_tm(&sys, &mut back);
    assert_eq!(back.tm_year, 123);
    assert_eq!(back.tm_mon, 10);
    assert_eq!(back.tm_yday, 313);
    assert_eq!(back.tm_isdst, -1);
    assert_eq!(back.tm_utcoff, 3600);
    assert_eq!(back.tm_nsec, 9);
    let early = Tm { tm_year: -1901, ..blank_tm() };
    assert_eq!(tm_to_system_time(&early), None);
}

#[test]
fn offset_within_a_day() {
    assert_eq!(FixedOffset::east_opt(-18_000), Some(FixedOffset { secs: -18_000 }));
    assert_eq!(FixedOffset::east_opt(86_400), None);
    assert_eq!(FixedOffset::east_opt(-86_400), None);
}

#[test]
fn naive_record_before_the_host_sees_it() {
    let d = NaiveDateTime::new(2023, 6, 1, 12, 30, 15, 42);
    let tm = naive_to_tm(&d, true);
    assert_eq!(tm.tm_year, 123);
    assert_eq!(tm.tm_mon, 5);
    assert_eq!(tm.tm_mday, 1);
    assert_eq!((tm.tm_hour, tm.tm_min, tm.tm_sec), (12, 30, 15));
    assert_eq!(tm.tm_isdst, -1);
    assert_eq!(tm.tm_utcoff, 1);
    assert_eq!(tm.tm_nsec, 0);
    let tm = naive_to_tm(&d, false);
    assert_eq!(tm.tm_isdst, 0);
    assert_eq!(tm.tm_utcoff, 0);
}

#[test]
fn calendar_helpers() {
    assert!(is_leap(2024) && !is_leap(2100) && is_leap(2000) && !is_leap(2023));
    assert_eq!(month_length(2024, 2), 29);
    assert_eq!(month_length(2023, 2), 28);
    assert_eq!(month_length(2023, 11), 30);
    assert_eq!(month_length(2023, 12), 31);
    assert!(NaiveDateTime::new(2016, 12, 31, 23, 59, 59, 1_500_000_000).is_valid());
    assert!(!NaiveDateTime::new(2023, 1, 1, 0, 0, 60, 0).is_valid());
    assert_eq!(NaiveDateTime::new(2023, 1, 1, 0, 0, 0, 0).month0(), 0);
    assert_eq!(LocalResult::Single(3u8).single(), Some(3));
    assert_eq!(LocalResult::<u8>::NoMatch.single(), None);
    assert_eq!(LocalResult::Ambiguous(1u8, 2u8).single(), None);
}

#[test]
fn local_reading_in_forward_gap_has_no_instant() {
    // 02:30 on 2023-03-12 does not exist five hours behind UTC with daylight
    // time; the host turns it into 07:30Z and reads that back as 03:30.
    let d = NaiveDateTime::new(2023, 3, 12, 2, 30, 0, 0);
    let sec: i64 = 1_678_606_200;
    let reading = LocalReading {
        calendar: calendar(2023, 3, 12, 3, 30, 0),
        ticks: ticks_of_sec(sec - 14_400),
        zone: five_behind(),
    };
    assert_eq!(naive_to_local(&d, true, sec, &reading), Ok(LocalResult::NoMatch));
}

#[test]
fn utc_reading_takes_the_host_local_fields() {
    let d = NaiveDateTime::new(2023, 6, 1, 17, 0, 0, 7);
    let sec: i64 = 1_685_638_800;
    let reading = LocalReading {
        calendar: calendar(2023, 6, 1, 12, 0, 0),
        ticks: ticks_of_sec(1_685_620_800),
        zone: five_behind(),
    };
    let dt = naive_to_local(&d, false, sec, &reading).unwrap().single().unwrap();
    assert_eq!(dt.naive_local(), NaiveDateTime::new(2023, 6, 1, 12, 0, 0, 7));
    assert_eq!(dt.timestamp(), sec);
    assert_eq!(dt.offset().local_minus_utc(), -18_000);
}

#[test]
fn clock_reading_becomes_timespec() {
    assert_eq!(Timespec::from_clock(1_685_638_800, 999_999_999), Ok(Timespec { sec: 1_685_638_800, nsec: 999_999_999 }));
    assert_eq!(Timespec::from_clock(i64::MAX as u64, 0), Ok(Timespec { sec: i64::MAX, nsec: 0 }));
    assert_eq!(Timespec::from_clock(i64::MAX as u64 + 1, 0), Err(HostFault::ClockOutOfRange));
}
