//! Text shared with the command-line front end.

use crate::instant::Instant;
use std::fmt::Write as _;
use vstd::prelude::*;

verus! {

/// The usage text of the command-line front end.
pub open spec fn usage_text() -> Seq<char> {
    "Usage: kt-parse <time|timespan> <input> [reference]\n  <input>: time or timespan string accepted by kal-time\n  [reference]: fully specified timestamp with timezone (e.g. 2025-10-22T09:10:11+00:00)\n"@
}

/// How to call the command-line front end.
pub fn usage() -> (r: String)
    ensures
        r@ == usage_text(),
{
    "Usage: kt-parse <time|timespan> <input> [reference]\n  <input>: time or timespan string accepted by kal-time\n  [reference]: fully specified timestamp with timezone (e.g. 2025-10-22T09:10:11+00:00)\n".to_owned()
}

/// The text of `t` at its own offset under the strftime pattern `fmt`, where chrono can
/// represent `t` and `fmt` is a valid pattern.
pub uninterp spec fn formatted(t: Instant, fmt: Seq<char>) -> Option<String>;

/// Relies on chrono's `DateTime::from_timestamp`, `FixedOffset::east_opt` and
/// `DateTime::format`; a pattern chrono cannot render gives `None`.
#[verifier::external_body]
fn format_instant(t: Instant, fmt: &str) -> (r: Option<String>)
    ensures
        r == formatted(t, fmt@),
{
    let off = chrono::FixedOffset::east_opt(t.offset)?;
    let d = chrono::DateTime::from_timestamp(t.secs, t.nanos)?.with_timezone(&off);
    let mut out = String::new();
    write!(out, "{}", d.format(fmt)).ok()?;
    Some(out)
}

/// The line printed for an instant: its Unix seconds, then its date, time and offset.
pub fn format_timestamp(t: &Instant) -> (r: Option<String>)
    ensures
        r == formatted(*t, "%s %Y-%m-%d %H:%M:%S %:z"@),
{
    format_instant(*t, "%s %Y-%m-%d %H:%M:%S %:z")
}

} // verus!
