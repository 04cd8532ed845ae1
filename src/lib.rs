//! Resolution of partial date and time expressions against a reference instant.
//!
//! An expression such as `10:15`, `30m` or `2015-02-01` names only some calendar and
//! clock fields; the others are filled from a reference instant or with their least
//! values. A timespan `start..stop` resolves its stop against its start.

pub mod cli;
pub mod fields;
pub mod instant;
pub mod laws;
pub mod reference;
pub mod resolve;
pub mod timespan;

pub use cli::{format_timestamp, usage};
pub use fields::{complete_fields, Partial, PatternError};
pub use instant::{Civil, Instant, LocalOffsets};
pub use reference::parse_reference;
pub use resolve::{parse, parse_partial, parse_utc, parse_with_reference, pick_local_offset, TimeError};
pub use timespan::{parse_timespan, parse_timespan_with_reference};
