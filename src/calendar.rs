//! The calendar values that the resolution works on and produces: a naive
//! reading, a fixed UTC offset, a reading tied to an offset, and the outcome
//! of resolving a reading.

use vstd::prelude::*;

verus! {

/// Earliest year a calendar reading may name.
pub const MIN_YEAR: i32 = -262_143;

/// Latest year a calendar reading may name.
pub const MAX_YEAR: i32 = 262_142;

/// Seconds in one day; an offset stays strictly within it.
pub const SECS_PER_DAY: i64 = 86_400;

/// Gregorian leap year.
pub open spec fn is_leap_year(y: int) -> bool {
    (y % 4 == 0 && y % 100 != 0) || y % 400 == 0
}

/// Days in month `m` (1-based) of year `y`.
pub open spec fn days_in_month(y: int, m: int) -> int {
    if m == 2 {
        if is_leap_year(y) {
            29
        } else {
            28
        }
    } else if m == 4 || m == 6 || m == 9 || m == 11 {
        30
    } else {
        31
    }
}

/// Whether year `y`, month `m` (1-based) and day `d` name a real day.
pub open spec fn is_valid_date(y: int, m: int, d: int) -> bool {
    MIN_YEAR <= y <= MAX_YEAR && 1 <= m <= 12 && 1 <= d <= days_in_month(y, m)
}

/// Whether the fields name a time of day; a nanosecond count from one to two
/// billion stands for a leap second.
pub open spec fn is_valid_time(h: int, mi: int, s: int, ns: int) -> bool {
    0 <= h < 24 && 0 <= mi < 60 && 0 <= s < 60 && 0 <= ns < 2_000_000_000
}

/// Days from 1970-01-01 to the given day of the proleptic Gregorian calendar.
pub open spec fn days_from_civil(y: int, m: int, d: int) -> int {
    let ya = if m <= 2 { y - 1 } else { y };
    let mp = if m > 2 { m - 3 } else { m + 9 };
    365 * ya + ya / 4 - ya / 100 + ya / 400 + (153 * mp + 2) / 5 + d - 1 - 719_468
}

/// Is `y` a leap year.
pub fn is_leap(y: i32) -> (r: bool)
    ensures
        r == is_leap_year(y as int),
{
    (y % 4 == 0 && y % 100 != 0) || y % 400 == 0
}

/// Days in month `m` (1-based) of year `y`.
pub fn month_length(y: i32, m: u32) -> (r: u32)
    requires
        1 <= m <= 12,
    ensures
        r == days_in_month(y as int, m as int),
{
    if m == 2 {
        if is_leap(y) {
            29
        } else {
            28
        }
    } else if m == 4 || m == 6 || m == 9 || m == 11 {
        30
    } else {
        31
    }
}

/// Whether year, month (1-based) and day name a real day.
pub fn valid_date(y: i64, m: i64, d: i64) -> (r: bool)
    ensures
        r == is_valid_date(y as int, m as int, d as int),
{
    if y < MIN_YEAR as i64 || y > MAX_YEAR as i64 || m < 1 || m > 12 || d < 1 {
        return false;
    }
    d <= month_length(y as i32, m as u32) as i64
}

/// Days from 1970-01-01 to a real day.
pub fn civil_to_days(y: i32, m: u32, d: u32) -> (r: i64)
    requires
        is_valid_date(y as int, m as int, d as int),
    ensures
        r == days_from_civil(y as int, m as int, d as int),
{
    let ya: i64 = if m <= 2 { y as i64 - 1 } else { y as i64 };
    let mp: i64 = if m > 2 { m as i64 - 3 } else { m as i64 + 9 };
    // Shift by whole 400-year cycles so that every division is on a
    // non-negative number.
    let shift: i64 = 400 * 1_000;
    let ys: u64 = (ya + shift) as u64;
    let q4: i64 = (ys / 4) as i64 - shift / 4;
    let q100: i64 = (ys / 100) as i64 - shift / 100;
    let q400: i64 = (ys / 400) as i64 - shift / 400;
    assert(q4 == ya / 4 && q100 == ya / 100 && q400 == ya / 400);
    let md: i64 = (153 * mp + 2) / 5;
    365 * ya + q4 - q100 + q400 + md + d as i64 - 1 - 719_468
}

/// A calendar reading without a zone: a year, a 1-based month and day, and a
/// time of day down to the nanosecond. Any field values may be held; a reading
/// that names no real moment is told apart by `is_valid`.
#[derive(Clone, Copy, Debug, PartialEq, Eq, Structural)]
pub struct NaiveDateTime {
    pub year: i32,
    pub month: u32,
    pub day: u32,
    pub hour: u32,
    pub minute: u32,
    pub second: u32,
    pub nanosecond: u32,
}

impl NaiveDateTime {
    /// The reading names a real day and a time of day.
    pub open spec fn wf(&self) -> bool {
        &&& is_valid_date(self.year as int, self.month as int, self.day as int)
        &&& is_valid_time(
            self.hour as int,
            self.minute as int,
            self.second as int,
            self.nanosecond as int,
        )
    }

    /// Seconds from 1970-01-01T00:00:00 to this reading, on its own clock.
    pub open spec fn seconds_since_epoch(&self) -> int {
        days_from_civil(self.year as int, self.month as int, self.day as int) * 86_400
            + self.hour * 3600 + self.minute * 60 + self.second
    }

    pub fn new(
        year: i32,
        month: u32,
        day: u32,
        hour: u32,
        minute: u32,
        second: u32,
        nanosecond: u32,
    ) -> (r: NaiveDateTime)
        ensures
            r == (NaiveDateTime { year, month, day, hour, minute, second, nanosecond }),
    {
        NaiveDateTime { year, month, day, hour, minute, second, nanosecond }
    }

    /// Whether the reading names a real day and a time of day.
    pub fn is_valid(&self) -> (r: bool)
        ensures
            r == self.wf(),
    {
        valid_date(self.year as i64, self.month as i64, self.day as i64) && self.hour < 24
            && self.minute < 60 && self.second < 60 && self.nanosecond < 2_000_000_000
    }

    /// The month counted from zero.
    pub fn month0(&self) -> (r: u32)
        requires
            self.month >= 1,
        ensures
            r == self.month - 1,
    {
        self.month - 1
    }
}

/// An offset from UTC, in seconds east, strictly within one day.
#[derive(Clone, Copy, Debug, PartialEq, Eq, Structural)]
pub struct FixedOffset {
    pub secs: i32,
}

impl FixedOffset {
    pub open spec fn wf(&self) -> bool {
        -86_400 < self.secs < 86_400
    }

    /// The offset of `secs` seconds east of UTC, if it is within one day.
    pub fn east_opt(secs: i32) -> (r: Option<FixedOffset>)
        ensures
            r.is_some() <==> -86_400 < secs < 86_400,
            r matches Some(o) ==> o.secs == secs,
    {
        if -86_400 < secs && secs < 86_400 {
            Some(FixedOffset { secs })
        } else {
            None
        }
    }

    /// Seconds east of UTC.
    pub fn local_minus_utc(&self) -> (r: i32)
        ensures
            r == self.secs,
    {
        self.secs
    }
}

/// A wall-clock reading together with the offset that was in force; the
/// instant it names is the reading minus the offset.
#[derive(Clone, Copy, Debug, PartialEq, Eq, Structural)]
pub struct DateTime {
    pub local: NaiveDateTime,
    pub offset: FixedOffset,
}

impl DateTime {
    pub open spec fn wf(&self) -> bool {
        self.local.wf() && self.offset.wf()
    }

    /// Whole seconds since the Unix epoch of the instant named.
    pub open spec fn instant(&self) -> int {
        self.local.seconds_since_epoch() - self.offset.secs
    }

    /// Whole seconds since 1970-01-01T00:00:00Z.
    pub fn timestamp(&self) -> (r: i64)
        requires
            self.wf(),
        ensures
            r == self.instant(),
    {
        let l = &self.local;
        let days: i64 = civil_to_days(l.year, l.month, l.day);
        days * 86_400 + l.hour as i64 * 3600 + l.minute as i64 * 60 + l.second as i64
            - self.offset.secs as i64
    }

    /// The sub-second part, in nanoseconds.
    pub fn timestamp_subsec_nanos(&self) -> (r: u32)
        ensures
            r == self.local.nanosecond,
    {
        self.local.nanosecond
    }

    /// The wall-clock reading.
    pub fn naive_local(&self) -> (r: NaiveDateTime)
        ensures
            r == self.local,
    {
        self.local
    }

    /// The offset in force.
    pub fn offset(&self) -> (r: FixedOffset)
        ensures
            r == self.offset,
    {
        self.offset
    }
}

/// How many instants a local reading names.
#[derive(Clone, Copy, Debug, PartialEq, Eq, Structural)]
pub enum LocalResult<T> {
    /// No instant: the reading falls in a gap or is not a real time.
    NoMatch,
    /// Exactly one instant.
    Single(T),
    /// Two instants, earlier first: the reading repeats when clocks go back.
    Ambiguous(T, T),
}

impl<T: Copy> LocalResult<T> {
    /// The instant, if there is exactly one.
    pub fn single(self) -> (r: Option<T>)
        ensures
            r == (match self {
                LocalResult::Single(t) => Some(t),
                _ => None,
            }),
    {
        match self {
            LocalResult::Single(t) => Some(t),
            _ => None,
        }
    }
}

} // verus!
