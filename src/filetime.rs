//! The bridge between Unix seconds and the host's tick encoding: a 64-bit
//! count of 100-nanosecond intervals since 1601-01-01T00:00:00Z, stored as two
//! 32-bit halves.

use vstd::prelude::*;

verus! {

/// Ticks in one second.
pub const HECTONANOSECS_IN_SEC: i64 = 10_000_000;

/// Ticks between 1601-01-01 and 1970-01-01.
pub const HECTONANOSEC_TO_UNIX_EPOCH: i64 = 11_644_473_600 * HECTONANOSECS_IN_SEC;

/// Largest tick count the host accepts.
pub const MAX_TICKS: u64 = 0x7fff_ffff_ffff_ffff;

/// A host tick count, split into its low and high 32 bits.
#[derive(Clone, Copy, Debug, PartialEq, Eq, Structural)]
pub struct FileTime {
    pub low: u32,
    pub high: u32,
}

/// The tick count that a `FileTime` holds.
pub open spec fn ticks_of(ft: FileTime) -> int {
    ft.high as int * 0x1_0000_0000 + ft.low as int
}

/// Ticks of the instant `sec` Unix seconds.
pub open spec fn unix_to_ticks(sec: int) -> int {
    sec * 10_000_000 + 116_444_736_000_000_000
}

/// Division that rounds toward zero, as `/` does on Rust's signed integers.
pub open spec fn trunc_div(a: int, b: int) -> int
    recommends
        b > 0,
{
    if a >= 0 {
        a / b
    } else {
        -((-a) / b)
    }
}

/// Unix seconds of a tick count: whole seconds, rounded toward zero.
pub open spec fn ticks_to_unix(t: int) -> int {
    trunc_div(t - 116_444_736_000_000_000, 10_000_000)
}

/// Whether `sec` Unix seconds has a tick count the host accepts.
pub open spec fn ticks_in_range(sec: int) -> bool {
    0 <= unix_to_ticks(sec) <= MAX_TICKS
}

/// The tick count of `sec` Unix seconds, or `None` when the host cannot
/// encode it (before 1601, or past its largest tick count).
pub fn time_to_file_time(sec: i64) -> (r: Option<FileTime>)
    ensures
        r.is_some() <==> ticks_in_range(sec as int),
        r matches Some(ft) ==> ticks_of(ft) == unix_to_ticks(sec as int),
{
    let lowest: i64 = -HECTONANOSEC_TO_UNIX_EPOCH / HECTONANOSECS_IN_SEC;
    let highest: i64 = (MAX_TICKS as i64 - HECTONANOSEC_TO_UNIX_EPOCH) / HECTONANOSECS_IN_SEC;
    if sec < lowest || sec > highest {
        return None;
    }
    let t: u64 = ((sec * HECTONANOSECS_IN_SEC) + HECTONANOSEC_TO_UNIX_EPOCH) as u64;
    let low: u32 = (t % 0x1_0000_0000) as u32;
    let high: u32 = (t / 0x1_0000_0000) as u32;
    Some(FileTime { low, high })
}

/// The tick count held by `ft`.
pub fn file_time_as_u64(ft: &FileTime) -> (r: u64)
    ensures
        r == ticks_of(*ft),
{
    (ft.high as u64) * 0x1_0000_0000 + (ft.low as u64)
}

/// The Unix seconds of `ft`, rounded toward zero.
pub fn file_time_to_unix_seconds(ft: &FileTime) -> (r: i64)
    ensures
        r == ticks_to_unix(ticks_of(*ft)),
{
    let t: u64 = file_time_as_u64(ft);
    let epoch: u64 = HECTONANOSEC_TO_UNIX_EPOCH as u64;
    let per_sec: u64 = HECTONANOSECS_IN_SEC as u64;
    if t >= epoch {
        ((t - epoch) / per_sec) as i64
    } else {
        -(((epoch - t) / per_sec) as i64)
    }
}

/// Every second that the host can encode comes back unchanged from its ticks.
pub proof fn lemma_ticks_round_trip(sec: int)
    requires
        ticks_in_range(sec),
    ensures
        ticks_to_unix(unix_to_ticks(sec)) == sec,
{
    assert(ticks_to_unix(unix_to_ticks(sec)) == sec) by (nonlinear_arith)
        requires
            unix_to_ticks(sec) == sec * 10_000_000 + 116_444_736_000_000_000,
    {
    }
}

/// The Unix epoch is exactly the host's epoch shifted by 11,644,473,600
/// seconds, and comes back as zero.
pub proof fn lemma_epoch_bridge()
    ensures
        ticks_in_range(0),
        unix_to_ticks(0) == 116_444_736_000_000_000,
        ticks_to_unix(unix_to_ticks(0)) == 0,
{
}

} // verus!
