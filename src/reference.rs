//! Reading a fully qualified reference timestamp, offset included.

use crate::instant::Instant;
use crate::resolve::TimeError;
use vstd::prelude::*;

verus! {

/// The instant an RFC 3339 timestamp names, if `s` is one.
pub uninterp spec fn rfc3339_instant(s: Seq<char>) -> Option<Instant>;

/// The instant that `s` names when the whole of it matches the strftime pattern `fmt`,
/// which carries an offset.
pub uninterp spec fn pattern_instant(s: Seq<char>, fmt: Seq<char>) -> Option<Instant>;

/// Relies on chrono's `DateTime::parse_from_rfc3339`: the instant and the offset written.
#[verifier::external_body]
fn read_rfc3339(s: &str) -> (r: Option<Instant>)
    ensures
        r == rfc3339_instant(s@),
{
    let d = chrono::DateTime::parse_from_rfc3339(s).ok()?;
    Some(Instant {
        secs: d.timestamp(),
        nanos: d.timestamp_subsec_nanos(),
        offset: d.offset().local_minus_utc(),
    })
}

/// Relies on chrono's `DateTime::parse_from_str`: the instant and the offset written.
#[verifier::external_body]
fn read_with_pattern(s: &str, fmt: &str) -> (r: Option<Instant>)
    ensures
        r == pattern_instant(s@, fmt@),
{
    let d = chrono::DateTime::parse_from_str(s, fmt).ok()?;
    Some(Instant {
        secs: d.timestamp(),
        nanos: d.timestamp_subsec_nanos(),
        offset: d.offset().local_minus_utc(),
    })
}

/// The patterns tried, in order, on a reference that is no RFC 3339 timestamp.
pub open spec fn reference_patterns() -> Seq<Seq<char>> {
    seq![
        "%Y-%m-%d %H:%M:%S %:z"@,
        "%Y-%m-%d %H:%M %:z"@,
        "%Y-%m-%dT%H:%M:%S%:z"@,
        "%Y-%m-%dT%H:%M%:z"@,
    ]
}

/// Number of fallback reference patterns.
pub const REFERENCE_PATTERN_COUNT: usize = 4;

fn reference_pattern_at(i: usize) -> (r: &'static str)
    requires
        i < REFERENCE_PATTERN_COUNT,
    ensures
        reference_patterns().len() == REFERENCE_PATTERN_COUNT,
        r@ == reference_patterns()[i as int],
{
    match i {
        0 => "%Y-%m-%d %H:%M:%S %:z",
        1 => "%Y-%m-%d %H:%M %:z",
        2 => "%Y-%m-%dT%H:%M:%S%:z",
        _ => "%Y-%m-%dT%H:%M%:z",
    }
}

/// The instant named by the first fallback pattern, from `i` on, that `s` matches.
pub open spec fn reference_from(s: Seq<char>, i: nat) -> Option<Instant>
    decreases REFERENCE_PATTERN_COUNT - i,
{
    if i >= REFERENCE_PATTERN_COUNT {
        None
    } else {
        match pattern_instant(s, reference_patterns()[i as int]) {
            Some(t) => Some(t),
            None => reference_from(s, i + 1),
        }
    }
}

/// Reads a reference timestamp: RFC 3339 first, then each fallback pattern in order.
pub fn parse_reference(s: &str) -> (r: Result<Instant, TimeError>)
    ensures
        match rfc3339_instant(s@) {
            Some(t) => r == Ok::<Instant, TimeError>(t),
            None => match reference_from(s@, 0) {
                Some(t) => r == Ok::<Instant, TimeError>(t),
                None => r matches Err(TimeError::InvalidReference(m)) && m@ == s@,
            },
        },
{
    if let Some(t) = read_rfc3339(s) {
        return Ok(t);
    }
    let mut i: usize = 0;
    while i < REFERENCE_PATTERN_COUNT
        invariant
            i <= REFERENCE_PATTERN_COUNT,
            rfc3339_instant(s@) is None,
            reference_from(s@, 0) == reference_from(s@, i as nat),
        decreases REFERENCE_PATTERN_COUNT - i,
    {
        if let Some(t) = read_with_pattern(s, reference_pattern_at(i)) {
            return Ok(t);
        }
        i += 1;
    }
    Err(TimeError::InvalidReference(s.to_owned()))
}

} // verus!
