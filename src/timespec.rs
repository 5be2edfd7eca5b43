//! An instant as seconds and nanoseconds since the Unix epoch, its reading
//! from the system clock, and its projection into local calendar fields from
//! the host's answers.

use std::time::{Duration, SystemTime, SystemTimeError};
use vstd::prelude::*;

use crate::filetime::{file_time_to_unix_seconds, ticks_of, ticks_to_unix, time_to_file_time, ticks_in_range, unix_to_ticks, FileTime};
use crate::local::{HostFault, LocalReading, ZoneBias};
use crate::tm::{system_time_to_tm, yday_of, Tm};

verus! {

/// std's clock reading, carried through opaque.
#[verifier::external_type_specification]
#[verifier::external_body]
pub struct ExSystemTime(std::time::SystemTime);

/// std's error for a clock reading before the one it is measured from,
/// carried through opaque.
#[verifier::external_type_specification]
#[verifier::external_body]
pub struct ExSystemTimeError(std::time::SystemTimeError);

/// Relies on std::time::SystemTime::now: a reading of the system clock, of
/// which nothing is known.
#[verifier::external_body]
fn wall_clock() -> (r: SystemTime) {
    SystemTime::now()
}

/// Relies on std::time::UNIX_EPOCH: the clock reading of 1970-01-01T00:00:00Z.
#[verifier::external_body]
fn unix_epoch() -> (r: SystemTime) {
    std::time::UNIX_EPOCH
}

/// Relies on SystemTime::duration_since: the time elapsed since `earlier`, or
/// an error where `earlier` is the later of the two.
pub assume_specification[ std::time::SystemTime::duration_since ](
    t: &SystemTime,
    earlier: SystemTime,
) -> Result<Duration, SystemTimeError>;

/// Relies on Duration::as_secs: the whole seconds of a duration.
pub assume_specification[ core::time::Duration::as_secs ](d: &Duration) -> u64;

/// Relies on Duration::subsec_nanos: the fractional part of a duration, in
/// nanoseconds, always under one billion.
pub assume_specification[ core::time::Duration::subsec_nanos ](d: &Duration) -> (r: u32)
    ensures
        r < 1_000_000_000,
;

/// Offset of the host's local reading from the instant `sec`, in seconds.
pub open spec fn round_trip_offset(sec: int, reading: LocalReading) -> int {
    ticks_to_unix(ticks_of(reading.ticks)) - sec
}

/// Daylight saving flag for a round-trip offset: in effect exactly where the
/// offset differs from the zone's standard one.
pub open spec fn dst_flag(offset: int, zone: ZoneBias) -> i32 {
    if offset == -60 * (zone.bias + zone.standard_bias) {
        0
    } else {
        1
    }
}

/// The broken-down record of the instant `sec` (with `nsec` nanoseconds),
/// built from the host's local reading of it; an error where the round-trip
/// offset does not fit 32 bits.
pub open spec fn projected(sec: int, nsec: i32, reading: LocalReading) -> Result<Tm, HostFault> {
    let off = round_trip_offset(sec, reading);
    let c = reading.calendar;
    if i32::MIN <= off <= i32::MAX {
        Ok(
            Tm {
                tm_sec: c.second as i32,
                tm_min: c.minute as i32,
                tm_hour: c.hour as i32,
                tm_mday: c.day as i32,
                tm_mon: (c.month - 1) as i32,
                tm_year: (c.year - 1900) as i32,
                tm_wday: c.day_of_week as i32,
                tm_yday: yday_of(c.year - 1900, c.month as int, c.day as int) as i32,
                tm_isdst: dst_flag(off, reading.zone),
                tm_utcoff: off as i32,
                tm_nsec: nsec,
            },
        )
    } else {
        Err(HostFault::OffsetOverflow)
    }
}

/// A point in time: whole seconds since the Unix epoch and the nanoseconds
/// after that second.
#[derive(Clone, Copy, Debug, PartialEq, Eq, Structural)]
pub struct Timespec {
    pub sec: i64,
    pub nsec: i32,
}

impl Timespec {
    pub open spec fn wf(&self) -> bool {
        0 <= self.nsec < 1_000_000_000
    }

    /// The instant `secs` seconds and `nanos` nanoseconds after the Unix
    /// epoch, as the clock reports it; a fault where the seconds exceed what
    /// an `i64` holds.
    pub fn from_clock(secs: u64, nanos: u32) -> (r: Result<Timespec, HostFault>)
        requires
            nanos < 1_000_000_000,
        ensures
            secs > i64::MAX ==> r == Err::<Timespec, HostFault>(HostFault::ClockOutOfRange),
            secs <= i64::MAX ==> r == Ok::<Timespec, HostFault>(
                Timespec { sec: secs as i64, nsec: nanos as i32 },
            ),
    {
        if secs > i64::MAX as u64 {
            Err(HostFault::ClockOutOfRange)
        } else {
            Ok(Timespec { sec: secs as i64, nsec: nanos as i32 })
        }
    }

    /// The current time, from the system clock: the clock's time since the
    /// Unix epoch, as `from_clock` gives it. Fails where the clock reads
    /// before the Unix epoch, or beyond what an `i64` of seconds holds.
    pub fn now() -> (r: Result<Timespec, HostFault>)
        ensures
            r matches Ok(t) ==> t.wf() && t.sec >= 0,
            r matches Err(e) ==> e == HostFault::ClockBeforeEpoch || e
                == HostFault::ClockOutOfRange,
    {
        let clock = wall_clock();
        match clock.duration_since(unix_epoch()) {
            Err(_) => Err(HostFault::ClockBeforeEpoch),
            Ok(d) => {
                let secs: u64 = d.as_secs();
                let nanos: u32 = d.subsec_nanos();
                Timespec::from_clock(secs, nanos)
            },
        }
    }

    /// The host ticks of this instant's whole second, to hand to the host for
    /// its local reading; `None` where the host cannot encode it.
    pub fn file_time(&self) -> (r: Option<FileTime>)
        ensures
            r.is_some() <==> ticks_in_range(self.sec as int),
            r matches Some(ft) ==> ticks_of(ft) == unix_to_ticks(self.sec as int),
    {
        time_to_file_time(self.sec)
    }

    /// The instant whose whole seconds the host ticks `ft` hold.
    pub fn from_file_time(ft: &FileTime) -> (r: Timespec)
        ensures
            r.sec == ticks_to_unix(ticks_of(*ft)),
            r.nsec == 0,
    {
        Timespec { sec: file_time_to_unix_seconds(ft), nsec: 0 }
    }

    /// This instant in local calendar fields, from the host's local reading
    /// of it: the fields come from the reading, the offset is how far the
    /// reading's ticks lie from this instant, and daylight saving is in effect
    /// exactly where that offset is not the zone's standard one.
    pub fn local(self, reading: &LocalReading) -> (r: Result<Tm, HostFault>)
        ensures
            r == projected(self.sec as int, self.nsec, *reading),
    {
        let mut tm = Tm {
            tm_sec: 0,
            tm_min: 0,
            tm_hour: 0,
            tm_mday: 0,
            tm_mon: 0,
            tm_year: 0,
            tm_wday: 0,
            tm_yday: 0,
            tm_isdst: 0,
            tm_utcoff: 0,
            tm_nsec: 0,
        };
        system_time_to_tm(&reading.calendar, &mut tm);
        let local_sec: i64 = file_time_to_unix_seconds(&reading.ticks);
        let off: i128 = local_sec as i128 - self.sec as i128;
        if off < i32::MIN as i128 || off > i32::MAX as i128 {
            return Err(HostFault::OffsetOverflow);
        }
        tm.tm_utcoff = off as i32;
        let standard: i64 = -60 * (reading.zone.bias as i64 + reading.zone.standard_bias as i64);
        tm.tm_isdst = if tm.tm_utcoff as i64 == standard {
            0
        } else {
            1
        };
        tm.tm_nsec = self.nsec;
        Ok(tm)
    }
}

} // verus!
