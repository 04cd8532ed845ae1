//! Laws that relate the resolution functions across inputs, references and calls.

use crate::fields::{completed, Partial};
use crate::instant::{civil_at, day_after, later, wall_epoch, Civil, Instant, LocalOffsets};
use crate::resolve::{first_fields, local_choice, resolution, TimeError};
use crate::timespan::{separator_from, timespan_outcome};
use vstd::prelude::*;

verus! {

/// Every calendar and clock field down to the second was given, as a valid hour.
pub open spec fn all_fields_given(p: Partial) -> bool {
    &&& p.timestamp is None
    &&& p.year is Some
    &&& p.month is Some
    &&& p.day is Some
    &&& p.has_hour()
    &&& p.wf()
    &&& p.minute is Some
    &&& p.second is Some
}

/// The fields exactly as written, with no nanoseconds where none were given.
pub open spec fn written(p: Partial) -> Civil {
    Civil {
        year: p.year->Some_0,
        month: p.month->Some_0,
        day: p.day->Some_0,
        hour: p.hour(),
        minute: p.minute->Some_0,
        second: p.second->Some_0,
        nanosecond: match p.nanosecond {
            Some(n) => n,
            None => 0,
        },
    }
}

/// Filling with zeroes leaves a fully given field set as written, whatever the reference.
pub proof fn full_fields_complete_as_written(p: Partial, reference: Civil)
    requires
        all_fields_given(p),
    ensures
        completed(p, reference, true) == written(p),
{
}

/// A complete calendar string resolved against a UTC reference gives back exactly the
/// date and time it spells, in UTC.
pub proof fn full_fields_round_trip(s: Seq<char>, reference: Instant, r: Result<Instant, TimeError>)
    requires
        s.len() > 0,
        reference.offset == 0,
        civil_at(reference) is Some,
        first_fields(s) matches Some(p) && all_fields_given(p) && written(p).second < 60
            && written(p).nanosecond < 1_000_000_000,
        wall_epoch(written(first_fields(s)->Some_0)) is Some,
        resolution(s, reference, r),
    ensures
        ({
            let w = wall_epoch(written(first_fields(s)->Some_0))->Some_0;
            r == Ok::<Instant, TimeError>(Instant { secs: w.0, nanos: w.1, offset: 0 })
        }),
{
    let p = first_fields(s)->Some_0;
    full_fields_complete_as_written(p, civil_at(reference)->Some_0);
}

/// An empty input resolves to the reference itself, whatever the reference.
pub proof fn empty_input_keeps_reference(reference: Instant, r: Result<Instant, TimeError>)
    requires
        resolution(Seq::empty(), reference, r),
    ensures
        r == Ok::<Instant, TimeError>(reference),
{
}

/// Only a year given: every finer field takes its least value.
pub proof fn year_alone_fills_zeroes(p: Partial, reference: Civil)
    requires
        p.year is Some,
        p.month is None && p.day is None && p.hour_div_12 is None && p.hour_mod_12 is None,
        p.minute is None && p.second is None && p.nanosecond is None,
    ensures
        completed(p, reference, true) == (Civil {
            year: p.year->Some_0,
            month: 1,
            day: 1,
            hour: 0,
            minute: 0,
            second: 0,
            nanosecond: 0,
        }),
{
}

/// Only an hour given: finer fields take zero, coarser fields come from the reference.
pub proof fn hour_alone_borrows_coarser(p: Partial, reference: Civil)
    requires
        p.has_hour(),
        p.year is None && p.month is None && p.day is None,
        p.minute is None && p.second is None && p.nanosecond is None,
    ensures
        completed(p, reference, true) == (Civil {
            year: reference.year,
            month: reference.month,
            day: reference.day,
            hour: p.hour(),
            minute: 0,
            second: 0,
            nanosecond: 0,
        }),
{
}

/// An absolute time resolves to that instant in UTC, whatever the reference and its offset.
pub proof fn absolute_time_ignores_reference(
    s: Seq<char>,
    reference: Instant,
    r: Result<Instant, TimeError>,
)
    requires
        s.len() > 0,
        first_fields(s) matches Some(p) && p.timestamp is Some,
        civil_at(Instant { secs: first_fields(s)->Some_0.timestamp->Some_0, nanos: 0, offset: 0 })
            is Some,
        resolution(s, reference, r),
    ensures
        r == Ok::<Instant, TimeError>(
            Instant { secs: first_fields(s)->Some_0.timestamp->Some_0, nanos: 0, offset: 0 },
        ),
{
}

/// A timespan without a separator stops exactly one day after it starts.
pub proof fn single_expression_spans_one_day(
    s: Seq<char>,
    reference: Instant,
    start: Instant,
    stop: Instant,
)
    requires
        separator_from(s, 0) is None,
        timespan_outcome(s, reference, Ok((start, stop))),
    ensures
        stop == day_after(start),
        stop.secs == start.secs + 86_400,
{
}

/// Where a wall-clock time occurs twice, the earlier of the two instants is taken.
pub proof fn ambiguous_time_takes_earlier_instant(wall: (i64, u32), a: i32, b: i32, t: Instant)
    requires
        local_choice(wall, LocalOffsets::Ambiguous(a, b)) == Ok::<Instant, TimeError>(t),
    ensures
        t.secs + t.offset == wall.0,
        t.offset == a || t.offset == b,
        t.secs <= wall.0 - a && t.secs <= wall.0 - b,
{
}

/// The stop of a timespan resolves against its start: what the stop omits comes from the
/// start, not from the reference.
pub proof fn timespan_stop_resolves_against_start(
    s: Seq<char>,
    reference: Instant,
    start: Instant,
    stop: Instant,
)
    requires
        separator_from(s, 0) is Some,
        timespan_outcome(s, reference, Ok((start, stop))),
    ensures
        resolution(s.subrange(0, separator_from(s, 0)->Some_0 as int), reference, Ok(start)),
        resolution(
            s.subrange(separator_from(s, 0)->Some_0 + 2int, s.len() as int),
            start,
            Ok(stop),
        ),
{
}

/// A resolved timespan never stops before it starts.
pub proof fn timespan_never_reversed(s: Seq<char>, reference: Instant, start: Instant, stop: Instant)
    requires
        timespan_outcome(s, reference, Ok((start, stop))),
    ensures
        !later(start, stop),
{
}

/// Resolving a fully given calendar string against two UTC references gives the same
/// outcome: no field is borrowed.
pub proof fn full_fields_ignore_utc_reference(
    s: Seq<char>,
    r1: Instant,
    r2: Instant,
    x: Result<Instant, TimeError>,
    y: Result<Instant, TimeError>,
)
    requires
        s.len() > 0,
        r1.offset == 0 && r2.offset == 0,
        civil_at(r1) is Some && civil_at(r2) is Some,
        first_fields(s) matches Some(p) && all_fields_given(p),
        resolution(s, r1, x),
        resolution(s, r2, y),
    ensures
        x == y,
{
    let p = first_fields(s)->Some_0;
    full_fields_complete_as_written(p, civil_at(r1)->Some_0);
    full_fields_complete_as_written(p, civil_at(r2)->Some_0);
}

} // verus!
