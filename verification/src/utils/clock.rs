//! The wall clock, and instants written as text, both read through chrono.

use crate::review::Timestamp;
use vstd::prelude::*;

verus! {

/// What chrono's parser for `DateTime<Utc>` makes of a text: the instant that
/// the text denotes, or `None` where the text is not a date, a time and an
/// offset from UTC in the relaxed RFC 3339 form that chrono accepts.
pub uninterp spec fn parsed_instant(text: Seq<char>) -> Option<Timestamp>;

/// `str::parse::<chrono::DateTime<chrono::Utc>>`, with the instant taken apart
/// by `timestamp` and `timestamp_subsec_nanos`. The parser reads nothing but
/// its argument, so the result is taken to depend on the text alone; nothing
/// else is claimed of it.
#[verifier::external_body]
pub(crate) fn parse_instant(text: &str) -> (r: Option<Timestamp>)
    ensures
        r == parsed_instant(text@),
{
    match text.parse::<chrono::DateTime<chrono::Utc>>() {
        Ok(t) => Some(Timestamp { secs: t.timestamp(), nanos: t.timestamp_subsec_nanos() }),
        Err(_) => None,
    }
}

/// `chrono::Utc::now`, taken apart by `timestamp` and `timestamp_subsec_nanos`.
/// Nothing is claimed of the result: it is what the system clock read. chrono
/// panics where that clock stands before 1970.
#[verifier::external_body]
pub(crate) fn now() -> Timestamp {
    let t = chrono::Utc::now();
    Timestamp { secs: t.timestamp(), nanos: t.timestamp_subsec_nanos() }
}

} // verus!
