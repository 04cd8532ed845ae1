//! The instant type of the library and what it reads from chrono's calendar.

use chrono::{Datelike, TimeZone, Timelike};
use vstd::prelude::*;

verus! {

/// Calendar and clock fields of a wall-clock moment.
#[derive(Clone, Copy, Debug, PartialEq, Eq, Structural)]
pub struct Civil {
    pub year: i32,
    pub month: u32,
    pub day: u32,
    pub hour: u32,
    pub minute: u32,
    pub second: u32,
    pub nanosecond: u32,
}

/// An absolute instant together with the UTC offset it is shown at.
///
/// `secs` and `nanos` count from the Unix epoch; `offset` is in seconds east of UTC.
#[derive(Clone, Copy, Debug, PartialEq, Eq, Structural)]
pub struct Instant {
    pub secs: i64,
    pub nanos: u32,
    pub offset: i32,
}

/// The calendar fields that `t` shows at its own offset, when chrono can represent it.
pub uninterp spec fn civil_at(t: Instant) -> Option<Civil>;

/// Seconds and nanoseconds since the epoch of `c` read as a UTC wall clock,
/// when `c` names a real date and time.
pub uninterp spec fn wall_epoch(c: Civil) -> Option<(i64, u32)>;

/// `a` lies strictly after `b` on the time line.
pub open spec fn later(a: Instant, b: Instant) -> bool {
    a.secs > b.secs || (a.secs == b.secs && a.nanos > b.nanos)
}

/// The instant one day (86 400 seconds) after `t`, at the same offset.
pub open spec fn day_after(t: Instant) -> Instant {
    Instant { secs: (t.secs + 86_400) as i64, nanos: t.nanos, offset: t.offset }
}

/// The offsets that the host's time zone gives a wall-clock moment.
pub enum LocalOffsets {
    Single(i32),
    /// Two offsets, in no promised order: the wall-clock time occurs twice.
    Ambiguous(i32, i32),
    Nonexistent,
}

/// Relies on chrono's `DateTime::from_timestamp`, `FixedOffset::east_opt` and
/// `DateTime::with_timezone`: the fields of the instant at its offset.
#[verifier::external_body]
pub(crate) fn read_civil(t: Instant) -> (r: Option<Civil>)
    ensures
        r == civil_at(t),
{
    let off = chrono::FixedOffset::east_opt(t.offset)?;
    let d = chrono::DateTime::from_timestamp(t.secs, t.nanos)?.with_timezone(&off);
    Some(Civil {
        year: d.year(),
        month: d.month(),
        day: d.day(),
        hour: d.hour(),
        minute: d.minute(),
        second: d.second(),
        nanosecond: d.nanosecond(),
    })
}

/// Relies on chrono's `NaiveDate::from_ymd_opt`, `NaiveDate::and_hms_nano_opt` and
/// `NaiveDateTime::and_utc`: the epoch time of a valid date and time read as UTC.
#[verifier::external_body]
pub(crate) fn wall_seconds(c: Civil) -> (r: Option<(i64, u32)>)
    ensures
        r == wall_epoch(c),
{
    let n = chrono::NaiveDate::from_ymd_opt(c.year, c.month, c.day)?;
    let d = n.and_hms_nano_opt(c.hour, c.minute, c.second, c.nanosecond)?.and_utc();
    Some((d.timestamp(), d.timestamp_subsec_nanos()))
}

/// Relies on chrono's `Local::offset_from_local_datetime`, which consults the host's
/// time zone database; `None` only where `c` is no valid date and time, as the same
/// chrono calls behind `wall_seconds` decide.
/// Every offset chrono hands out lies strictly within one day.
#[verifier::external_body]
pub(crate) fn local_offsets(c: Civil) -> (r: Option<LocalOffsets>)
    ensures
        wall_epoch(c) is Some ==> r is Some,
        r matches Some(LocalOffsets::Single(o)) ==> -86_400 < o < 86_400,
        r matches Some(LocalOffsets::Ambiguous(a, b)) ==> -86_400 < a < 86_400 && -86_400 < b
            < 86_400,
{
    let n = chrono::NaiveDate::from_ymd_opt(c.year, c.month, c.day)?;
    let d = n.and_hms_nano_opt(c.hour, c.minute, c.second, c.nanosecond)?;
    Some(match chrono::Local.offset_from_local_datetime(&d) {
        chrono::LocalResult::Single(o) => LocalOffsets::Single(o.local_minus_utc()),
        chrono::LocalResult::Ambiguous(a, b) => LocalOffsets::Ambiguous(
            a.local_minus_utc(),
            b.local_minus_utc(),
        ),
        chrono::LocalResult::None => LocalOffsets::Nonexistent,
    })
}

/// Relies on chrono's `Utc::now`: the current time, shown in UTC, which chrono
/// represents.
#[verifier::external_body]
pub(crate) fn now_utc() -> (r: Instant)
    ensures
        r.offset == 0,
        civil_at(r) is Some,
{
    let t = chrono::Utc::now();
    Instant { secs: t.timestamp(), nanos: t.timestamp_subsec_nanos(), offset: 0 }
}

/// Relies on chrono's `Local::now`: the current time at the host's offset, which chrono
/// represents.
#[verifier::external_body]
pub(crate) fn now_local() -> (r: Instant)
    ensures
        -86_400 < r.offset < 86_400,
        civil_at(r) is Some,
{
    let t = chrono::Local::now();
    Instant {
        secs: t.timestamp(),
        nanos: t.timestamp_subsec_nanos(),
        offset: t.offset().local_minus_utc(),
    }
}

impl Instant {
    /// The calendar fields this instant shows at its offset.
    pub fn civil(&self) -> (r: Option<Civil>)
        ensures
            r == civil_at(*self),
    {
        read_civil(*self)
    }

    /// The instant whose wall clock at `offset` shows `c`, if `c` is a valid date and time.
    pub fn from_civil(c: Civil, offset: i32) -> (r: Option<Instant>)
        ensures
            match wall_epoch(c) {
                None => r is None,
                Some(w) => r == (if i64::MIN <= w.0 - offset <= i64::MAX {
                    Some(Instant { secs: (w.0 - offset) as i64, nanos: w.1, offset })
                } else {
                    None::<Instant>
                }),
            },
    {
        match wall_seconds(c) {
            None => None,
            Some(w) => match w.0.checked_sub(offset as i64) {
                None => None,
                Some(secs) => Some(Instant { secs, nanos: w.1, offset }),
            },
        }
    }

    /// Whether `self` lies strictly after `other`.
    pub fn is_after(&self, other: &Instant) -> (r: bool)
        ensures
            r == later(*self, *other),
    {
        self.secs > other.secs || (self.secs == other.secs && self.nanos > other.nanos)
    }

    /// The instant one day later, or `None` where the seconds would overflow.
    pub fn plus_one_day(&self) -> (r: Option<Instant>)
        ensures
            r == (if self.secs + 86_400 <= i64::MAX {
                Some(day_after(*self))
            } else {
                None::<Instant>
            }),
    {
        match self.secs.checked_add(86_400) {
            None => None,
            Some(secs) => Some(Instant { secs, nanos: self.nanos, offset: self.offset }),
        }
    }
}

} // verus!
