//! Durations in the calendar/clock duration format (e.g. "P0DT2H40M").
//!
//! The grammar is parsed and rendered by the `iso8601` crate; the library
//! holds the parsed components as plain integers.

use vstd::prelude::*;

verus! {

/// A parsed calendar/clock duration: either year/month/day/hour/minute/
/// second/millisecond components, or a whole number of weeks.
#[derive(Debug, Clone, Copy, PartialEq, Eq, Structural)]
pub enum Duration {
    YmdHms {
        year: u32,
        month: u32,
        day: u32,
        hour: u32,
        minute: u32,
        second: u32,
        millisecond: u32,
    },
    Weeks(u32),
}

/// What parsing a text as a calendar/clock duration yields: `None` where the
/// text is not in the duration format.
pub uninterp spec fn iso_duration_of(s: Seq<char>) -> Option<Duration>;

/// The rendered text of a duration.
pub uninterp spec fn iso_duration_text(d: Duration) -> Seq<char>;

/// Relies on `iso8601::duration` to parse the duration grammar.  The result
/// depends on the text alone.
#[verifier::external_body]
pub(crate) fn parse_duration(s: &str) -> (r: Option<Duration>)
    ensures
        r == iso_duration_of(s@),
{
    match iso8601::duration(s) {
        Ok(iso8601::Duration::YMDHMS { year, month, day, hour, minute, second, millisecond }) => {
            Some(Duration::YmdHms { year, month, day, hour, minute, second, millisecond })
        },
        Ok(iso8601::Duration::Weeks(w)) => Some(Duration::Weeks(w)),
        Err(_) => None,
    }
}

/// Relies on the `Display` rendering of `iso8601::Duration`.  The text
/// depends on the duration alone.
#[verifier::external_body]
pub(crate) fn duration_text(d: &Duration) -> (r: String)
    ensures
        r@ == iso_duration_text(*d),
{
    match *d {
        Duration::YmdHms { year, month, day, hour, minute, second, millisecond } => {
            format!("{}", iso8601::Duration::YMDHMS { year, month, day, hour, minute, second, millisecond })
        },
        Duration::Weeks(w) => format!("{}", iso8601::Duration::Weeks(w)),
    }
}

} // verus!
