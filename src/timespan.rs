//! Timespans: a start and a stop, the stop resolved against the start.

use crate::instant::{civil_at, day_after, later, now_local, Instant};
use crate::resolve::{parse_with_reference, resolution, TimeError};
use vstd::prelude::*;

verus! {

/// The range separator `..` begins at index `k` of `s`.
pub open spec fn separator_at(s: Seq<char>, k: int) -> bool {
    0 <= k && k + 1 < s.len() && s[k] == '.' && s[k + 1] == '.'
}

/// The first index from `k` on where the range separator begins.
pub open spec fn separator_from(s: Seq<char>, k: nat) -> Option<nat>
    decreases s.len() - k,
{
    if k + 1 >= s.len() {
        None
    } else if separator_at(s, k as int) {
        Some(k)
    } else {
        separator_from(s, k + 1)
    }
}

/// Relies on `str::split_once`: the text before and after the first `..`.
#[verifier::external_body]
fn split_range(s: &str) -> (r: Option<(&str, &str)>)
    ensures
        match separator_from(s@, 0) {
            None => r is None,
            Some(k) => r matches Some((a, b)) && a@ == s@.subrange(0, k as int) && b@
                == s@.subrange(k + 2int, s@.len() as int),
        },
{
    s.split_once("..")
}

/// What may come of resolving the timespan `s` against `reference`.
///
/// With a separator, the start resolves against `reference` and the stop against the
/// start; without one, the stop lies one day after the start. A stop before the start is
/// refused with both instants.
pub open spec fn timespan_outcome(
    s: Seq<char>,
    reference: Instant,
    r: Result<(Instant, Instant), TimeError>,
) -> bool {
    match separator_from(s, 0) {
        Some(k) => {
            let a = s.subrange(0, k as int);
            let b = s.subrange(k + 2int, s.len() as int);
            match r {
                Ok((start, stop)) => resolution(a, reference, Ok(start)) && resolution(
                    b,
                    start,
                    Ok(stop),
                ) && !later(start, stop),
                Err(e) => resolution(a, reference, Err(e)) || (exists|start: Instant|
                    #[trigger] resolution(a, reference, Ok(start)) && resolution(b, start, Err(e)))
                    || (e matches TimeError::InvalidTimespan { input, start, stop } && input@ == s
                    && resolution(a, reference, Ok(start)) && resolution(b, start, Ok(stop))
                    && later(start, stop)),
            }
        },
        None => match r {
            Ok((start, stop)) => resolution(s, reference, Ok(start)) && start.secs + 86_400
                <= i64::MAX && stop == day_after(start) && !later(start, stop),
            Err(e) => resolution(s, reference, Err(e)) || (e == TimeError::OutOfRange && exists|
                start: Instant|
                #[trigger] resolution(s, reference, Ok(start)) && start.secs + 86_400 > i64::MAX),
        },
    }
}

/// Resolves `timespan` into a start and a stop against `default`.
pub fn parse_timespan_with_reference(timespan: &str, default: &Instant) -> (r: Result<
    (Instant, Instant),
    TimeError,
>)
    ensures
        timespan_outcome(timespan@, *default, r),
        r matches Ok((start, stop)) ==> !later(start, stop),
{
    let (start, stop) = match split_range(timespan) {
        Some((a, b)) => {
            let first = match parse_with_reference(a, default) {
                Ok(t) => t,
                Err(e) => return Err(e),
            };
            let second = match parse_with_reference(b, &first) {
                Ok(t) => t,
                Err(e) => return Err(e),
            };
            (first, second)
        },
        None => {
            let first = match parse_with_reference(timespan, default) {
                Ok(t) => t,
                Err(e) => return Err(e),
            };
            let second = match first.plus_one_day() {
                Some(t) => t,
                None => return Err(TimeError::OutOfRange),
            };
            (first, second)
        },
    };
    if start.is_after(&stop) {
        return Err(TimeError::InvalidTimespan { input: timespan.to_owned(), start, stop });
    }
    Ok((start, stop))
}

/// Resolves `timespan` against the current time at the host's offset.
pub fn parse_timespan(timespan: &str) -> (r: Result<(Instant, Instant), TimeError>)
    ensures
        exists|now: Instant|
            -86_400 < now.offset < 86_400 && civil_at(now) is Some && #[trigger] timespan_outcome(
                timespan@,
                now,
                r,
            ),
        r matches Ok((start, stop)) ==> !later(start, stop),
{
    let now = now_local();
    parse_timespan_with_reference(timespan, &now)
}

} // verus!
