//! The broken-down time record, the host's 16-bit calendar record, and the
//! conversions between them.

use vstd::prelude::*;

verus! {

/// A calendar date and time broken down into its components.
#[derive(Clone, Copy, Debug, PartialEq, Eq, Structural)]
pub struct Tm {
    /// Seconds after the minute, 0 to 60 (60 only for a leap second).
    pub tm_sec: i32,
    /// Minutes after the hour, 0 to 59.
    pub tm_min: i32,
    /// Hours after midnight, 0 to 23.
    pub tm_hour: i32,
    /// Day of the month, 1 to 31.
    pub tm_mday: i32,
    /// Months since January, 0 to 11.
    pub tm_mon: i32,
    /// Years since 1900; may be negative.
    pub tm_year: i32,
    /// Days since Sunday, 0 to 6.
    pub tm_wday: i32,
    /// Days since January 1, 0 to 365.
    pub tm_yday: i32,
    /// Daylight saving time: positive if in effect, zero if not, negative if
    /// unknown.
    pub tm_isdst: i32,
    /// Seconds east of UTC of the zone the record was computed in, including
    /// any daylight saving adjustment.
    pub tm_utcoff: i32,
    /// Nanoseconds after the second.
    pub tm_nsec: i32,
}

/// The host's calendar record: every field a 16-bit unsigned count, the month
/// and the day 1-based, the weekday 0 for Sunday.
#[derive(Clone, Copy, Debug, PartialEq, Eq, Structural)]
pub struct HostCalendar {
    pub year: u16,
    pub month: u16,
    pub day_of_week: u16,
    pub day: u16,
    pub hour: u16,
    pub minute: u16,
    pub second: u16,
    pub milliseconds: u16,
}

/// Whether `v` fits a 16-bit unsigned field.
pub open spec fn fits_u16(v: int) -> bool {
    0 <= v <= 0xffff
}

/// Whether every field that the host record takes from `tm` fits it.
pub open spec fn tm_fits_host(tm: Tm) -> bool {
    &&& fits_u16(tm.tm_sec as int)
    &&& fits_u16(tm.tm_min as int)
    &&& fits_u16(tm.tm_hour as int)
    &&& fits_u16(tm.tm_mday as int)
    &&& fits_u16(tm.tm_wday as int)
    &&& fits_u16(tm.tm_mon + 1)
    &&& fits_u16(tm.tm_year + 1900)
}

/// Day of the year, counted from zero, by a closed form that takes every
/// fourth year as a leap year. It agrees with the calendar wherever that
/// agrees with the Gregorian rule, but for one day too many in August,
/// October and December (see `lemma_yday_vs_calendar`). It only feeds the
/// record handed back from the host, never a result of its own.
pub open spec fn yday_of(year: int, month: int, day: int) -> int {
    let leap = if month > 2 {
        if year % 4 == 0 {
            1int
        } else {
            2int
        }
    } else {
        0int
    };
    let july = if month > 7 {
        1int
    } else {
        0int
    };
    (month - 1) * 30 + month / 2 + (day - 1) - leap + july
}

/// Days of the months before month `m` (1-based) of a year, by the calendar.
pub open spec fn days_before_month(m: int, leap: bool) -> int
    decreases m,
{
    if m <= 1 {
        0
    } else {
        days_before_month(m - 1, leap) + if m - 1 == 2 {
            if leap {
                29int
            } else {
                28int
            }
        } else if m - 1 == 4 || m - 1 == 6 || m - 1 == 9 || m - 1 == 11 {
            30int
        } else {
            31int
        }
    }
}

/// Day of the year, counted from zero, of `year` (since 1900), month
/// (1-based) and day.
pub fn yday(year: i32, month: i32, day: i32) -> (r: i32)
    requires
        0 <= month <= 0xffff,
        0 <= day <= 0xffff,
    ensures
        r == yday_of(year as int, month as int, day as int),
{
    let leap: i32 = if month > 2 {
        if year % 4 == 0 {
            1
        } else {
            2
        }
    } else {
        0
    };
    let july: i32 = if month > 7 {
        1
    } else {
        0
    };
    (month - 1) * 30 + month / 2 + (day - 1) - leap + july
}

/// How far the closed form runs ahead of the calendar: one day in August,
/// October and December, none in the other months.
pub open spec fn yday_excess(month: int) -> int {
    if month == 8 || month == 10 || month == 12 {
        1
    } else {
        0
    }
}

/// The closed form gives the calendar's day of the year plus `yday_excess`,
/// for every month of a year whose Gregorian and four-year leap rules agree.
pub proof fn lemma_yday_vs_calendar(year: int, month: int, day: int)
    requires
        1 <= month <= 12,
        (year % 4 == 0) == is_leap_gregorian(year + 1900),
    ensures
        yday_of(year, month, day) == days_before_month(month, is_leap_gregorian(year + 1900)) + day
            - 1 + yday_excess(month),
{
    let leap = is_leap_gregorian(year + 1900);
    let f: int = if leap {
        1
    } else {
        0
    };
    assert(days_before_month(1, leap) == 0);
    assert(days_before_month(2, leap) == 31);
    assert(days_before_month(3, leap) == 59 + f);
    assert(days_before_month(4, leap) == 90 + f);
    assert(days_before_month(5, leap) == 120 + f);
    assert(days_before_month(6, leap) == 151 + f);
    assert(days_before_month(7, leap) == 181 + f);
    assert(days_before_month(8, leap) == 212 + f);
    assert(days_before_month(9, leap) == 243 + f);
    assert(days_before_month(10, leap) == 273 + f);
    assert(days_before_month(11, leap) == 304 + f);
    assert(days_before_month(12, leap) == 334 + f);
}

/// Gregorian leap year.
pub open spec fn is_leap_gregorian(y: int) -> bool {
    crate::calendar::is_leap_year(y)
}

/// The host record of `tm`'s calendar fields, or `None` where one does not fit
/// a 16-bit field. The milliseconds are zero: sub-second parts never go to the
/// host.
pub fn tm_to_system_time(tm: &Tm) -> (r: Option<HostCalendar>)
    ensures
        r.is_some() <==> tm_fits_host(*tm),
        r matches Some(s) ==> {
            &&& s.second == tm.tm_sec
            &&& s.minute == tm.tm_min
            &&& s.hour == tm.tm_hour
            &&& s.day == tm.tm_mday
            &&& s.day_of_week == tm.tm_wday
            &&& s.month == tm.tm_mon + 1
            &&& s.year == tm.tm_year + 1900
            &&& s.milliseconds == 0
        },
{
    let month: i64 = tm.tm_mon as i64 + 1;
    let year: i64 = tm.tm_year as i64 + 1900;
    if tm.tm_sec < 0 || tm.tm_sec > 0xffff || tm.tm_min < 0 || tm.tm_min > 0xffff
        || tm.tm_hour < 0 || tm.tm_hour > 0xffff || tm.tm_mday < 0 || tm.tm_mday > 0xffff
        || tm.tm_wday < 0 || tm.tm_wday > 0xffff || month < 0 || month > 0xffff || year < 0
        || year > 0xffff {
        return None;
    }
    Some(
        HostCalendar {
            year: year as u16,
            month: month as u16,
            day_of_week: tm.tm_wday as u16,
            day: tm.tm_mday as u16,
            hour: tm.tm_hour as u16,
            minute: tm.tm_min as u16,
            second: tm.tm_sec as u16,
            milliseconds: 0,
        },
    )
}

/// Copies the host record's calendar fields into `tm` and fills in its day of
/// the year; the DST flag, offset and nanoseconds are left as they were.
pub fn system_time_to_tm(sys: &HostCalendar, tm: &mut Tm)
    ensures
        final(tm).tm_sec == sys.second,
        final(tm).tm_min == sys.minute,
        final(tm).tm_hour == sys.hour,
        final(tm).tm_mday == sys.day,
        final(tm).tm_wday == sys.day_of_week,
        final(tm).tm_mon == sys.month - 1,
        final(tm).tm_year == sys.year - 1900,
        final(tm).tm_yday == yday_of(sys.year - 1900, sys.month as int, sys.day as int),
        final(tm).tm_isdst == old(tm).tm_isdst,
        final(tm).tm_utcoff == old(tm).tm_utcoff,
        final(tm).tm_nsec == old(tm).tm_nsec,
{
    tm.tm_sec = sys.second as i32;
    tm.tm_min = sys.minute as i32;
    tm.tm_hour = sys.hour as i32;
    tm.tm_mday = sys.day as i32;
    tm.tm_wday = sys.day_of_week as i32;
    tm.tm_mon = sys.month as i32 - 1;
    tm.tm_year = sys.year as i32 - 1900;
    tm.tm_yday = yday(tm.tm_year, tm.tm_mon + 1, tm.tm_mday);
}

} // verus!
