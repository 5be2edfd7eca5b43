//! Resolution of calendar readings against the machine's zone: the current
//! local time, and a naive reading taken as UTC or as local wall-clock time.
//!
//! The host does the zone arithmetic; these functions decide what to ask it
//! and assemble its answers. To resolve a naive reading `d`:
//! 1. `instant_query(d, local)` says which calendar record the host is to turn
//!    into ticks, as UTC or as local time;
//! 2. `Timespec::from_file_time` gives the second those ticks name, and its
//!    `file_time` the ticks to project back into the zone;
//! 3. `naive_to_local(d, sec, reading)` builds the result from that
//!    projection.

use vstd::prelude::*;

use crate::calendar::{
    is_valid_date, is_valid_time, valid_date, DateTime, FixedOffset, LocalResult, NaiveDateTime,
};
use crate::filetime::FileTime;
use crate::filetime::{ticks_of, ticks_to_unix};
use crate::timespec::{projected, round_trip_offset, Timespec};
use crate::tm::{tm_to_system_time, HostCalendar, Tm};

verus! {

/// A failure of the environment, as opposed to a reading that names no
/// instant.
#[derive(Clone, Copy, Debug, PartialEq, Eq, Structural)]
pub enum HostFault {
    /// The system clock reads earlier than the Unix epoch.
    ClockBeforeEpoch,
    /// The system clock reads more seconds than an `i64` holds.
    ClockOutOfRange,
    /// A value lies outside what the host's encodings hold.
    OutOfHostRange,
    /// The offset found by the round trip through the host exceeds 32 bits.
    OffsetOverflow,
    /// A record handed back carries an offset not within one day.
    InvalidOffset,
    /// A record handed back names no real date.
    InvalidDate,
    /// The current time did not come out as exactly one instant.
    NotSingle,
}

/// The zone's biases, in minutes west of UTC, as the host reports them: the
/// base bias and the extra bias of standard time.
#[derive(Clone, Copy, Debug, PartialEq, Eq, Structural)]
pub struct ZoneBias {
    pub bias: i32,
    pub standard_bias: i32,
}

/// What the host answers for an instant: its local calendar record, that
/// record encoded as ticks, and the zone's biases.
#[derive(Clone, Copy, Debug, PartialEq, Eq, Structural)]
pub struct LocalReading {
    pub calendar: HostCalendar,
    pub ticks: FileTime,
    pub zone: ZoneBias,
}

/// A calendar record for the host to turn into ticks.
#[derive(Clone, Copy, Debug, PartialEq, Eq, Structural)]
pub enum InstantQuery {
    /// The record is a UTC reading.
    Utc(HostCalendar),
    /// The record is a local wall-clock reading; the zone's offset is to be
    /// removed.
    Local(HostCalendar),
}

/// The second after leap-second folding: 59 where the record says 60 or more.
pub open spec fn folded_second(tm: Tm) -> int {
    if tm.tm_sec >= 60 {
        59
    } else {
        tm.tm_sec as int
    }
}

/// The nanoseconds after leap-second folding: each second past 59 becomes a
/// billion nanoseconds.
pub open spec fn folded_nanos(tm: Tm) -> int {
    if tm.tm_sec >= 60 {
        tm.tm_nsec + (tm.tm_sec - 59) * 1_000_000_000
    } else {
        tm.tm_nsec as int
    }
}

/// Whether the record's year, month and day name a real day.
pub open spec fn tm_date_ok(tm: Tm) -> bool {
    is_valid_date(tm.tm_year + 1900, tm.tm_mon + 1, tm.tm_mday as int)
}

/// Whether the record, once folded, names a time of day.
pub open spec fn tm_time_ok(tm: Tm) -> bool {
    is_valid_time(tm.tm_hour as int, tm.tm_min as int, folded_second(tm), folded_nanos(tm))
}

/// The wall-clock reading of a record, once folded.
pub open spec fn tm_reading(tm: Tm) -> NaiveDateTime {
    NaiveDateTime {
        year: (tm.tm_year + 1900) as i32,
        month: (tm.tm_mon + 1) as u32,
        day: tm.tm_mday as u32,
        hour: tm.tm_hour as u32,
        minute: tm.tm_min as u32,
        second: folded_second(tm) as u32,
        nanosecond: folded_nanos(tm) as u32,
    }
}

/// What a broken-down record resolves to: a fault where it names no real date
/// or its offset is not within a day, no instant where its time of day is not
/// one, else the single instant of its reading at its offset.
pub open spec fn assembled(tm: Tm) -> Result<LocalResult<DateTime>, HostFault> {
    if !tm_date_ok(tm) {
        Err(HostFault::InvalidDate)
    } else if !tm_time_ok(tm) {
        Ok(LocalResult::NoMatch)
    } else if !(-86_400 < tm.tm_utcoff < 86_400) {
        Err(HostFault::InvalidOffset)
    } else {
        Ok(LocalResult::Single(DateTime { local: tm_reading(tm), offset: FixedOffset { secs: tm.tm_utcoff } }))
    }
}

/// The current local time of the clock reading `ts`, given the host's local
/// reading of it.
pub open spec fn current(ts: Timespec, reading: LocalReading) -> Result<DateTime, HostFault> {
    match projected(ts.sec as int, ts.nsec, reading) {
        Err(e) => Err(e),
        Ok(tm) => match assembled(tm) {
            Err(e) => Err(e),
            Ok(LocalResult::Single(dt)) => Ok(dt),
            Ok(_) => Err(HostFault::NotSingle),
        },
    }
}

/// The record built from a naive reading, before the host sees it.
pub open spec fn naive_tm(d: NaiveDateTime, local: bool) -> Tm {
    Tm {
        tm_sec: d.second as i32,
        tm_min: d.minute as i32,
        tm_hour: d.hour as i32,
        tm_mday: d.day as i32,
        tm_mon: (d.month - 1) as i32,
        tm_year: (d.year - 1900) as i32,
        tm_wday: 0,
        tm_yday: 0,
        tm_isdst: if local {
            -1i32
        } else {
            0i32
        },
        tm_utcoff: if local {
            1i32
        } else {
            0i32
        },
        tm_nsec: 0,
    }
}

/// The host calendar record of a naive reading's whole seconds.
pub open spec fn host_calendar(d: NaiveDateTime) -> HostCalendar {
    HostCalendar {
        year: d.year as u16,
        month: d.month as u16,
        day_of_week: 0,
        day: d.day as u16,
        hour: d.hour as u16,
        minute: d.minute as u16,
        second: d.second as u16,
        milliseconds: 0,
    }
}

/// Whether the year of a naive reading fits the host's calendar record.
pub open spec fn year_fits_host(d: NaiveDateTime) -> bool {
    0 <= d.year <= 0xffff
}

/// Whether the host's calendar record repeats a naive reading's whole-second
/// fields.
pub open spec fn reads_back(c: HostCalendar, d: NaiveDateTime) -> bool {
    &&& c.year == d.year
    &&& c.month == d.month
    &&& c.day == d.day
    &&& c.hour == d.hour
    &&& c.minute == d.minute
    &&& c.second == d.second
}

/// What a naive reading resolves to, given the second `sec` the host turned
/// it into and the host's local reading of that second: the host's calendar
/// fields with the reading's own nanoseconds. A local reading that the host
/// does not read back unchanged names no local instant (it falls in a gap
/// where clocks go forward).
pub open spec fn resolved(d: NaiveDateTime, local: bool, sec: int, reading: LocalReading) -> Result<
    LocalResult<DateTime>,
    HostFault,
> {
    if !d.wf() {
        Ok(LocalResult::NoMatch)
    } else if local && !reads_back(reading.calendar, d) {
        Ok(LocalResult::NoMatch)
    } else {
        match projected(sec, 0, reading) {
            Err(e) => Err(e),
            Ok(tm) => assembled(Tm { tm_nsec: d.nanosecond as i32, ..tm }),
        }
    }
}

/// Resolves a broken-down record: folds a leap second into the nanoseconds,
/// then checks the date, the time of day and the offset.
pub fn tm_to_datetime(tm: Tm) -> (r: Result<LocalResult<DateTime>, HostFault>)
    ensures
        r == assembled(tm),
{
    let mut sec: i64 = tm.tm_sec as i64;
    let mut nsec: i64 = tm.tm_nsec as i64;
    if sec >= 60 {
        nsec = nsec + (sec - 59) * 1_000_000_000;
        sec = 59;
    }
    let year: i64 = tm.tm_year as i64 + 1900;
    let month: i64 = tm.tm_mon as i64 + 1;
    if !valid_date(year, month, tm.tm_mday as i64) {
        return Err(HostFault::InvalidDate);
    }
    if tm.tm_hour < 0 || tm.tm_hour >= 24 || tm.tm_min < 0 || tm.tm_min >= 60 || sec < 0 || sec
        >= 60 || nsec < 0 || nsec >= 2_000_000_000 {
        return Ok(LocalResult::NoMatch);
    }
    match FixedOffset::east_opt(tm.tm_utcoff) {
        None => Err(HostFault::InvalidOffset),
        Some(offset) => {
            let local = NaiveDateTime {
                year: year as i32,
                month: month as u32,
                day: tm.tm_mday as u32,
                hour: tm.tm_hour as u32,
                minute: tm.tm_min as u32,
                second: sec as u32,
                nanosecond: nsec as u32,
            };
            Ok(LocalResult::Single(DateTime { local, offset }))
        },
    }
}

/// The current local time, from the clock reading `ts` and the host's local
/// reading of it. The current moment always names exactly one instant; any
/// other outcome is a fault.
pub fn now(ts: Timespec, reading: &LocalReading) -> (r: Result<DateTime, HostFault>)
    ensures
        r == current(ts, *reading),
{
    let tm = match ts.local(reading) {
        Err(e) => return Err(e),
        Ok(tm) => tm,
    };
    match tm_to_datetime(tm) {
        Err(e) => Err(e),
        Ok(LocalResult::Single(dt)) => Ok(dt),
        Ok(_) => Err(HostFault::NotSingle),
    }
}

/// The broken-down record of a real naive reading, before the host sees it:
/// its calendar fields, no nanoseconds, and the daylight saving flag unknown
/// for a local reading.
pub fn naive_to_tm(d: &NaiveDateTime, local: bool) -> (r: Tm)
    requires
        d.wf(),
    ensures
        r == naive_tm(*d, local),
{
    Tm {
        tm_sec: d.second as i32,
        tm_min: d.minute as i32,
        tm_hour: d.hour as i32,
        tm_mday: d.day as i32,
        tm_mon: d.month0() as i32,
        tm_year: d.year - 1900,
        tm_wday: 0,
        tm_yday: 0,
        tm_isdst: if local {
            -1
        } else {
            0
        },
        tm_utcoff: if local {
            1
        } else {
            0
        },
        tm_nsec: 0,
    }
}

/// What the host is to turn into ticks to resolve `d`: its calendar record,
/// as UTC or as local time. `Ok(None)` where `d` names no real moment, which
/// resolves to no instant; a fault where its year does not fit the host's
/// record.
pub fn instant_query(d: &NaiveDateTime, local: bool) -> (r: Result<Option<InstantQuery>, HostFault>)
    ensures
        !d.wf() ==> r == Ok::<Option<InstantQuery>, HostFault>(None),
        d.wf() && !year_fits_host(*d) ==> r == Err::<Option<InstantQuery>, HostFault>(
            HostFault::OutOfHostRange,
        ),
        d.wf() && year_fits_host(*d) ==> r == Ok::<Option<InstantQuery>, HostFault>(
            Some(
                if local {
                    InstantQuery::Local(host_calendar(*d))
                } else {
                    InstantQuery::Utc(host_calendar(*d))
                },
            ),
        ),
{
    if !d.is_valid() {
        return Ok(None);
    }
    let tm = naive_to_tm(d, local);
    match tm_to_system_time(&tm) {
        None => Err(HostFault::OutOfHostRange),
        Some(cal) => Ok(
            Some(
                if local {
                    InstantQuery::Local(cal)
                } else {
                    InstantQuery::Utc(cal)
                },
            ),
        ),
    }
}

/// Resolves the naive reading `d`, taken as local wall-clock time where
/// `local` holds and as UTC otherwise, given the second `sec` that the host
/// made of its `instant_query`, and the host's local reading of `sec`: the host's
/// calendar fields carry `d`'s own nanoseconds, which never go to the host.
/// A reading that names no real moment resolves to no instant, and so does a
/// local reading (`local`) that the host does not read back with the same
/// fields: it falls in a gap where clocks go forward. A reading in an hour
/// that repeats when clocks go back is not told apart: it resolves to the one
/// instant that the host chose.
pub fn naive_to_local(d: &NaiveDateTime, local: bool, sec: i64, reading: &LocalReading) -> (r: Result<
    LocalResult<DateTime>,
    HostFault,
>)
    ensures
        r == resolved(*d, local, sec as int, *reading),
{
    if !d.is_valid() {
        return Ok(LocalResult::NoMatch);
    }
    let c = &reading.calendar;
    if local && !(c.year as i64 == d.year as i64 && c.month as u32 == d.month && c.day as u32
        == d.day && c.hour as u32 == d.hour && c.minute as u32 == d.minute && c.second as u32
        == d.second) {
        return Ok(LocalResult::NoMatch);
    }
    let spec = Timespec { sec, nsec: 0 };
    let mut tm = match spec.local(reading) {
        Err(e) => return Err(e),
        Ok(tm) => tm,
    };
    assert(tm.tm_nsec == 0);
    tm.tm_nsec = d.nanosecond as i32;
    tm_to_datetime(tm)
}

/// Round trip: where the host hands back a real naive reading's own fields
/// for the second it made of it, resolving the reading gives that reading
/// again, nanoseconds included, at the round-trip offset; and where the
/// host's ticks encode those fields, the instant named is that second.
pub proof fn lemma_round_trip(d: NaiveDateTime, local: bool, sec: i64, reading: LocalReading)
    requires
        d.wf(),
        reading.calendar.year == d.year,
        reading.calendar.month == d.month,
        reading.calendar.day == d.day,
        reading.calendar.hour == d.hour,
        reading.calendar.minute == d.minute,
        reading.calendar.second == d.second,
        -86_400 < round_trip_offset(sec as int, reading) < 86_400,
    ensures
        resolved(d, local, sec as int, reading) == Ok::<LocalResult<DateTime>, HostFault>(
            LocalResult::Single(
                DateTime {
                    local: d,
                    offset: FixedOffset { secs: round_trip_offset(sec as int, reading) as i32 },
                },
            ),
        ),
        ticks_to_unix(ticks_of(reading.ticks)) == d.seconds_since_epoch() ==> (DateTime {
            local: d,
            offset: FixedOffset { secs: round_trip_offset(sec as int, reading) as i32 },
        }).instant() == sec,
{
    let tm = projected(sec as int, 0, reading)->Ok_0;
    let tm2 = Tm { tm_nsec: d.nanosecond as i32, ..tm };
    assert(tm_reading(tm2) == d);
}

/// Leap-second folding: a record whose second reads 60 with no nanoseconds,
/// and whose other fields are sound, resolves to second 59 with a whole
/// second of nanoseconds.
pub proof fn lemma_leap_second_clamp(tm: Tm)
    requires
        tm.tm_sec == 60,
        tm.tm_nsec == 0,
        tm_date_ok(tm),
        0 <= tm.tm_hour < 24,
        0 <= tm.tm_min < 60,
        -86_400 < tm.tm_utcoff < 86_400,
    ensures
        assembled(tm) matches Ok(LocalResult::Single(dt)) && dt.local.second == 59
            && dt.local.nanosecond == 1_000_000_000,
{
}

/// Daylight saving flag: in the projection of an instant, the flag reads
/// "in effect" exactly where the round-trip offset differs from the zone's
/// standard offset, and "not in effect" where they are equal.
pub proof fn lemma_dst_flag(sec: int, nsec: i32, reading: LocalReading)
    requires
        projected(sec, nsec, reading) is Ok,
    ensures
        ({
            let tm = projected(sec, nsec, reading)->Ok_0;
            let standard = -60 * (reading.zone.bias + reading.zone.standard_bias);
            &&& tm.tm_utcoff == round_trip_offset(sec, reading)
            &&& (tm.tm_utcoff != standard <==> tm.tm_isdst == 1)
            &&& (tm.tm_utcoff == standard <==> tm.tm_isdst == 0)
        }),
{
}

} // verus!
