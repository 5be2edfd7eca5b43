//! Local-time resolution against a host clock and zone service that speaks in
//! 100-nanosecond ticks since 1601 and in 16-bit calendar records.
//!
//! The library holds the arithmetic and the decisions; the host's answers come
//! in as plain values.

pub mod calendar;
pub mod filetime;
pub mod local;
pub mod timespec;
pub mod tm;

pub use calendar::{DateTime, FixedOffset, LocalResult, NaiveDateTime};
pub use filetime::FileTime;
pub use local::{naive_to_local, now, tm_to_datetime, HostFault, InstantQuery, LocalReading, ZoneBias};
pub use timespec::Timespec;
pub use tm::{HostCalendar, Tm};
