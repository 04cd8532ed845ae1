//! Partial field sets, as a pattern match leaves them, and their completion.

use crate::instant::Civil;
use chrono::format::{ParseError, ParseErrorKind, Parsed, StrftimeItems};
use vstd::prelude::*;

verus! {

/// The fields that matching one input against one pattern has set.
///
/// The hour comes as chrono keeps it: the half of the day and the hour within it.
/// `timestamp` holds seconds since the epoch for the absolute pattern.
#[derive(Clone, Copy, Debug, PartialEq, Eq, Structural)]
pub struct Partial {
    pub year: Option<i32>,
    pub month: Option<u32>,
    pub day: Option<u32>,
    pub hour_div_12: Option<u32>,
    pub hour_mod_12: Option<u32>,
    pub minute: Option<u32>,
    pub second: Option<u32>,
    pub nanosecond: Option<u32>,
    pub timestamp: Option<i64>,
}

/// Why an input does not match a pattern.
#[derive(Clone, Copy, Debug, PartialEq, Eq, Structural)]
pub enum PatternError {
    OutOfRange,
    Impossible,
    NotEnough,
    Invalid,
    TooShort,
    TooLong,
    BadFormat,
    Other,
}

#[verifier::external_type_specification]
#[verifier::external_body]
pub struct ExParseError(ParseError);

/// The outcome of matching the whole of `s` against the strftime pattern `fmt`.
pub uninterp spec fn strftime_fields(s: Seq<char>, fmt: Seq<char>) -> Result<Partial, PatternError>;

/// Relies on chrono's `format::parse` with `StrftimeItems`: the whole of `s` must match
/// `fmt`, and the fields it sets are read back through `Parsed`'s getters.
#[verifier::external_body]
pub(crate) fn match_pattern(s: &str, fmt: &str) -> (r: Result<Partial, PatternError>)
    ensures
        r == strftime_fields(s@, fmt@),
{
    let mut p = Parsed::new();
    chrono::format::parse(&mut p, s, StrftimeItems::new(fmt)).map_err(pattern_error)?;
    Ok(Partial {
        year: p.year(),
        month: p.month(),
        day: p.day(),
        hour_div_12: p.hour_div_12(),
        hour_mod_12: p.hour_mod_12(),
        minute: p.minute(),
        second: p.second(),
        nanosecond: p.nanosecond(),
        timestamp: p.timestamp(),
    })
}

/// Relies on chrono's `ParseError::kind`: one variant for each kind of failure.
#[verifier::external_body]
fn pattern_error(e: ParseError) -> PatternError {
    match e.kind() {
        ParseErrorKind::OutOfRange => PatternError::OutOfRange,
        ParseErrorKind::Impossible => PatternError::Impossible,
        ParseErrorKind::NotEnough => PatternError::NotEnough,
        ParseErrorKind::Invalid => PatternError::Invalid,
        ParseErrorKind::TooShort => PatternError::TooShort,
        ParseErrorKind::TooLong => PatternError::TooLong,
        ParseErrorKind::BadFormat => PatternError::BadFormat,
        _ => PatternError::Other,
    }
}

impl Partial {
    /// Both halves of the hour were set.
    pub open spec fn has_hour(self) -> bool {
        self.hour_div_12 is Some && self.hour_mod_12 is Some
    }

    /// Each half of the hour that was set lies in its range.
    pub open spec fn wf(self) -> bool {
        (self.hour_div_12 matches Some(d) ==> d <= 1) && (self.hour_mod_12 matches Some(m) ==> m
            <= 11)
    }

    /// The hour of the day, where both halves were set.
    pub open spec fn hour(self) -> u32 {
        (self.hour_div_12->Some_0 * 12 + self.hour_mod_12->Some_0) as u32
    }

    /// Whether each half of the hour lies in its range.
    pub fn is_wf(&self) -> (r: bool)
        ensures
            r == self.wf(),
    {
        let d_ok = match self.hour_div_12 {
            Some(d) => d <= 1,
            None => true,
        };
        let m_ok = match self.hour_mod_12 {
            Some(m) => m <= 11,
            None => true,
        };
        d_ok && m_ok
    }
}

/// The given value, else the default while filling with zeroes, else the reference's value.
pub open spec fn pick<T>(given: Option<T>, zero: bool, default: T, from_ref: T) -> T {
    match given {
        Some(v) => v,
        None => if zero {
            default
        } else {
            from_ref
        },
    }
}

/// Every field completed: a missing field takes its least value (the year 1970) while no
/// finer field was given and `zero_default` holds, and the reference's value otherwise.
pub open spec fn completed(p: Partial, reference: Civil, zero_default: bool) -> Civil {
    let z_nanosecond = zero_default;
    let z_second = z_nanosecond && p.nanosecond is None;
    let z_minute = z_second && p.second is None;
    let z_hour = z_minute && p.minute is None;
    let z_day = z_hour && !p.has_hour();
    let z_month = z_day && p.day is None;
    let z_year = z_month && p.month is None;
    Civil {
        year: pick(p.year, z_year, 1970, reference.year),
        month: pick(p.month, z_month, 1, reference.month),
        day: pick(p.day, z_day, 1, reference.day),
        hour: pick(if p.has_hour() { Some(p.hour()) } else { None }, z_hour, 0, reference.hour),
        minute: pick(p.minute, z_minute, 0, reference.minute),
        second: pick(p.second, z_second, 0, reference.second),
        nanosecond: pick(p.nanosecond, z_nanosecond, 0, reference.nanosecond),
    }
}

fn fill<T: Copy>(given: Option<T>, zero: bool, default: T, from_ref: T) -> (r: T)
    ensures
        r == pick(given, zero, default, from_ref),
{
    match given {
        Some(v) => v,
        None => if zero {
            default
        } else {
            from_ref
        },
    }
}

/// Completes `p` field by field from the finest to the coarsest: once a field was given,
/// every coarser missing field is borrowed from `reference`.
pub fn complete_fields(p: &Partial, reference: &Civil, zero_default: bool) -> (r: Civil)
    requires
        p.wf(),
    ensures
        r == completed(*p, *reference, zero_default),
{
    let mut zero = zero_default;
    let nanosecond = fill(p.nanosecond, zero, 0, reference.nanosecond);
    if p.nanosecond.is_some() {
        zero = false;
    }
    let second = fill(p.second, zero, 0, reference.second);
    if p.second.is_some() {
        zero = false;
    }
    let minute = fill(p.minute, zero, 0, reference.minute);
    if p.minute.is_some() {
        zero = false;
    }
    let given_hour = match (p.hour_div_12, p.hour_mod_12) {
        (Some(d), Some(m)) => Some(d * 12 + m),
        _ => None,
    };
    let hour = fill(given_hour, zero, 0, reference.hour);
    if given_hour.is_some() {
        zero = false;
    }
    let day = fill(p.day, zero, 1, reference.day);
    if p.day.is_some() {
        zero = false;
    }
    let month = fill(p.month, zero, 1, reference.month);
    if p.month.is_some() {
        zero = false;
    }
    let year = fill(p.year, zero, 1970, reference.year);
    Civil { year, month, day, hour, minute, second, nanosecond }
}

} // verus!
