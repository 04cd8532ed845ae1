//! Resolution of one time expression: the pattern catalog, field completion and the
//! choice of an offset.

use crate::fields::{complete_fields, completed, match_pattern, strftime_fields, Partial, PatternError};
use crate::instant::{civil_at, local_offsets, now_local, now_utc, read_civil, wall_epoch, wall_seconds, Civil, Instant, LocalOffsets};
use vstd::prelude::*;

verus! {

/// Why an expression could not be resolved.
#[derive(Clone, Debug, PartialEq, Eq)]
pub enum TimeError {
    /// The input does not match the one pattern it was tried against.
    Pattern(PatternError),
    /// No pattern of the catalog matches the input.
    FormatMismatch(String),
    /// A matched field lies outside its domain, or the fields name no real date and time.
    InvalidField,
    /// An instant lies outside the range that can be represented.
    OutOfRange,
    /// The wall-clock time falls in a gap of the host's time zone.
    LocalTimeNonexistent,
    /// A reference timestamp, with its offset, could not be read.
    InvalidReference(String),
    /// The stop of a timespan lies before its start.
    InvalidTimespan { input: String, start: Instant, stop: Instant },
}

/// The patterns tried, in order; the first that matches the whole input wins.
pub open spec fn catalog() -> Seq<Seq<char>> {
    seq![
        "%Y-%m-%d"@,
        "%Y-%m-%d %H:%M"@,
        "%Y-%m-%d %H:%M:%S"@,
        "%m-%d"@,
        "%m/%d"@,
        "%m-%d %H:%M:%S"@,
        "%m-%d %H:%M"@,
        "%d %H:%M"@,
        "%d %Hh%M"@,
        "%d %Hh"@,
        "%H:%M:%S"@,
        "%H:%M"@,
        "%Hh%M"@,
        "%Hh"@,
        "%Mm"@,
        "%M"@,
        "@%s"@,
    ]
}

/// Number of patterns in the catalog.
pub const PATTERN_COUNT: usize = 17;

/// The pattern at `i` in the catalog.
pub fn pattern_at(i: usize) -> (r: &'static str)
    requires
        i < PATTERN_COUNT,
    ensures
        catalog().len() == PATTERN_COUNT,
        r@ == catalog()[i as int],
{
    match i {
        0 => "%Y-%m-%d",
        1 => "%Y-%m-%d %H:%M",
        2 => "%Y-%m-%d %H:%M:%S",
        3 => "%m-%d",
        4 => "%m/%d",
        5 => "%m-%d %H:%M:%S",
        6 => "%m-%d %H:%M",
        7 => "%d %H:%M",
        8 => "%d %Hh%M",
        9 => "%d %Hh",
        10 => "%H:%M:%S",
        11 => "%H:%M",
        12 => "%Hh%M",
        13 => "%Hh",
        14 => "%Mm",
        15 => "%M",
        _ => "@%s",
    }
}


/// The index of the first pattern, from `i` on, that the whole of `s` matches.
pub open spec fn first_match_from(s: Seq<char>, i: nat) -> Option<nat>
    decreases PATTERN_COUNT - i,
{
    if i >= PATTERN_COUNT {
        None
    } else if strftime_fields(s, catalog()[i as int]) is Ok {
        Some(i)
    } else {
        first_match_from(s, i + 1)
    }
}

/// The fields set by the first pattern of the catalog that the whole of `s` matches.
pub open spec fn first_fields(s: Seq<char>) -> Option<Partial> {
    match first_match_from(s, 0) {
        Some(i) => match strftime_fields(s, catalog()[i as int]) {
            Ok(p) => Some(p),
            Err(_) => None,
        },
        None => None,
    }
}

/// The clock as chrono builds it: a leap second 60 becomes second 59 with a nanosecond
/// count past one second; a nanosecond count of a second or more is no valid field.
pub open spec fn clock_of(c: Civil) -> Option<Civil> {
    if c.nanosecond >= 1_000_000_000 {
        None
    } else if c.second == 60 {
        Some(
            Civil {
                year: c.year,
                month: c.month,
                day: c.day,
                hour: c.hour,
                minute: c.minute,
                second: 59,
                nanosecond: (c.nanosecond + 1_000_000_000) as u32,
            },
        )
    } else {
        Some(c)
    }
}

fn leap_clock(c: Civil) -> (r: Option<Civil>)
    ensures
        r == clock_of(c),
{
    if c.nanosecond >= 1_000_000_000 {
        None
    } else if c.second == 60 {
        Some(
            Civil {
                year: c.year,
                month: c.month,
                day: c.day,
                hour: c.hour,
                minute: c.minute,
                second: 59,
                nanosecond: c.nanosecond + 1_000_000_000,
            },
        )
    } else {
        Some(c)
    }
}

/// The offset of the earliest instant whose wall clock shows a time: the only one, or
/// the larger of two where the time occurs twice.
pub open spec fn earliest_offset(offsets: LocalOffsets) -> i32
    recommends
        !(offsets is Nonexistent),
{
    match offsets {
        LocalOffsets::Single(o) => o,
        LocalOffsets::Ambiguous(a, b) => if a >= b {
            a
        } else {
            b
        },
        LocalOffsets::Nonexistent => 0,
    }
}

/// The instant whose wall clock at the chosen offset shows `wall`: the only offset, or
/// the earlier of the two instants where the wall clock is ambiguous.
pub open spec fn local_choice(wall: (i64, u32), offsets: LocalOffsets) -> Result<Instant, TimeError> {
    if offsets is Nonexistent {
        Err(TimeError::LocalTimeNonexistent)
    } else {
        let o = earliest_offset(offsets);
        if i64::MIN <= wall.0 - o <= i64::MAX {
            Ok(Instant { secs: (wall.0 - o) as i64, nanos: wall.1, offset: o })
        } else {
            Err(TimeError::OutOfRange)
        }
    }
}

/// Picks the instant for a wall-clock time from the offsets the host's time zone gives it.
pub fn pick_local_offset(wall: (i64, u32), offsets: LocalOffsets) -> (r: Result<Instant, TimeError>)
    ensures
        r == local_choice(wall, offsets),
{
    let o = match offsets {
        LocalOffsets::Single(o) => o,
        LocalOffsets::Ambiguous(a, b) => if a >= b {
            a
        } else {
            b
        },
        LocalOffsets::Nonexistent => return Err(TimeError::LocalTimeNonexistent),
    };
    match wall.0.checked_sub(o as i64) {
        Some(secs) => Ok(Instant { secs, nanos: wall.1, offset: o }),
        None => Err(TimeError::OutOfRange),
    }
}

/// Every offset that `offsets` holds lies strictly within one day.
pub open spec fn offsets_in_range(offsets: LocalOffsets) -> bool {
    match offsets {
        LocalOffsets::Single(o) => -86_400 < o < 86_400,
        LocalOffsets::Ambiguous(a, b) => -86_400 < a < 86_400 && -86_400 < b < 86_400,
        LocalOffsets::Nonexistent => true,
    }
}

/// What may come of resolving a wall-clock time in the host's time zone: the choice among
/// whatever offsets the zone gives it (the earlier instant where there are two), or the
/// refusal of a time that falls in a gap.
pub open spec fn local_outcome(wall: (i64, u32), r: Result<Instant, TimeError>) -> bool {
    exists|offsets: LocalOffsets|
        offsets_in_range(offsets) && #[trigger] local_choice(wall, offsets) == r
}

/// What may come of resolving the fields `p` against `reference`. An absolute time is
/// taken in UTC; otherwise the fields are completed and read as UTC where the reference
/// is shown in UTC, and in the host's time zone where it is not.
pub open spec fn fields_outcome(
    p: Partial,
    reference: Instant,
    zero_default: bool,
    r: Result<Instant, TimeError>,
) -> bool {
    match p.timestamp {
        Some(ts) => {
            let t = Instant { secs: ts, nanos: 0, offset: 0 };
            if civil_at(t) is Some {
                r == Ok::<Instant, TimeError>(t)
            } else {
                r == Err::<Instant, TimeError>(TimeError::OutOfRange)
            }
        },
        None => if !p.wf() {
            r == Err::<Instant, TimeError>(TimeError::InvalidField)
        } else {
            match civil_at(reference) {
                None => r == Err::<Instant, TimeError>(TimeError::OutOfRange),
                Some(rc) => match clock_of(completed(p, rc, zero_default)) {
                    None => r == Err::<Instant, TimeError>(TimeError::InvalidField),
                    Some(c) => match wall_epoch(c) {
                        None => r == Err::<Instant, TimeError>(TimeError::InvalidField),
                        Some(w) => if reference.offset == 0 {
                            r == Ok::<Instant, TimeError>(
                                Instant { secs: w.0, nanos: w.1, offset: 0 },
                            )
                        } else {
                            local_outcome(w, r)
                        },
                    },
                },
            }
        },
    }
}

/// Resolves the fields that one pattern matched.
pub fn resolve_fields(p: &Partial, reference: &Instant, zero_default: bool) -> (r: Result<
    Instant,
    TimeError,
>)
    ensures
        fields_outcome(*p, *reference, zero_default, r),
{
    if let Some(ts) = p.timestamp {
        let t = Instant { secs: ts, nanos: 0, offset: 0 };
        return match read_civil(t) {
            Some(_) => Ok(t),
            None => Err(TimeError::OutOfRange),
        };
    }
    if !p.is_wf() {
        return Err(TimeError::InvalidField);
    }
    let rc = match read_civil(*reference) {
        Some(rc) => rc,
        None => return Err(TimeError::OutOfRange),
    };
    let c = match leap_clock(complete_fields(p, &rc, zero_default)) {
        Some(c) => c,
        None => return Err(TimeError::InvalidField),
    };
    let w = match wall_seconds(c) {
        Some(w) => w,
        None => return Err(TimeError::InvalidField),
    };
    if reference.offset == 0 {
        Ok(Instant { secs: w.0, nanos: w.1, offset: 0 })
    } else {
        match local_offsets(c) {
            Some(offsets) => {
                let r = pick_local_offset(w, offsets);
                assert(offsets_in_range(offsets) && local_choice(w, offsets) == r);
                r
            },
            None => Err(TimeError::InvalidField),
        }
    }
}

/// Matches `s` against the one pattern `fmt` and resolves what it sets against `reference`.
pub fn parse_partial(s: &str, fmt: &str, reference: &Instant, complete_with_zeroes: bool) -> (r:
    Result<Instant, TimeError>)
    ensures
        match strftime_fields(s@, fmt@) {
            Err(e) => r == Err::<Instant, TimeError>(TimeError::Pattern(e)),
            Ok(p) => fields_outcome(p, *reference, complete_with_zeroes, r),
        },
{
    match match_pattern(s, fmt) {
        Err(e) => Err(TimeError::Pattern(e)),
        Ok(p) => resolve_fields(&p, reference, complete_with_zeroes),
    }
}

/// What may come of resolving the expression `s` against `reference`: the reference itself
/// for an empty input, else the resolution of the first pattern that matches, else a
/// mismatch that carries the input.
pub open spec fn resolution(s: Seq<char>, reference: Instant, r: Result<Instant, TimeError>) -> bool {
    if s.len() == 0 {
        r == Ok::<Instant, TimeError>(reference)
    } else {
        match first_match_from(s, 0) {
            None => r matches Err(TimeError::FormatMismatch(m)) && m@ == s,
            Some(i) => match strftime_fields(s, catalog()[i as int]) {
                Ok(p) => fields_outcome(p, reference, true, r),
                Err(_) => false,
            },
        }
    }
}

/// Resolves `timestr` against `reference`, trying the catalog's patterns in order.
pub fn parse_with_reference(timestr: &str, reference: &Instant) -> (r: Result<Instant, TimeError>)
    ensures
        resolution(timestr@, *reference, r),
{
    if timestr.is_empty() {
        return Ok(*reference);
    }
    let mut i: usize = 0;
    while i < PATTERN_COUNT
        invariant
            i <= PATTERN_COUNT,
            timestr@.len() != 0,
            first_match_from(timestr@, 0) == first_match_from(timestr@, i as nat),
        decreases PATTERN_COUNT - i,
    {
        let fmt = pattern_at(i);
        if let Ok(p) = match_pattern(timestr, fmt) {
            assert(first_match_from(timestr@, i as nat) == Some(i as nat));
            return resolve_fields(&p, reference, true);
        }
        i += 1;
    }
    Err(TimeError::FormatMismatch(timestr.to_owned()))
}

/// Resolves `timespan` against the current time at the host's offset.
pub fn parse(timespan: &str) -> (r: Result<Instant, TimeError>)
    ensures
        exists|now: Instant|
            -86_400 < now.offset < 86_400 && civil_at(now) is Some && #[trigger] resolution(
                timespan@,
                now,
                r,
            ),
{
    let now = now_local();
    parse_with_reference(timespan, &now)
}

/// Resolves `timespan` against the current time in UTC.
pub fn parse_utc(timespan: &str) -> (r: Result<Instant, TimeError>)
    ensures
        exists|now: Instant|
            now.offset == 0 && civil_at(now) is Some && #[trigger] resolution(timespan@, now, r),
{
    let now = now_utc();
    parse_with_reference(timespan, &now)
}

} // verus!
