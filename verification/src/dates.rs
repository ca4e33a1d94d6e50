//! Timestamps.
//!
//! Course dates arrive as RFC 3339 texts and are carried as plain
//! microsecond counts since the Unix epoch, timezone resolved.
use vstd::prelude::*;

verus! {

/// The instant, in microseconds since the Unix epoch, that an RFC 3339 text
/// denotes, if the text is well-formed, and nothing otherwise.  The parse is
/// a function of the text alone; its exact shape is left to the outside
/// parser.
pub uninterp spec fn rfc3339_micros_of(s: Seq<char>) -> Option<i64>;

/// Relies on `chrono::DateTime::parse_from_rfc3339` and
/// `chrono::DateTime::timestamp_micros`: whether a text parses, and to which
/// instant, depends on the text alone; within chrono's representable years
/// the microsecond count fits an `i64`.
#[verifier::external_body]
pub(crate) fn parse_rfc3339_micros(s: &str) -> (r: Option<i64>)
    ensures
        r == rfc3339_micros_of(s@),
{
    match chrono::DateTime::parse_from_rfc3339(s) {
        Ok(d) => Some(d.timestamp_micros()),
        Err(_) => None,
    }
}

/// Relies on `chrono::Utc::now` and `chrono::DateTime::timestamp_micros`:
/// the current instant.  Nothing is promised of its value.
#[verifier::external_body]
pub(crate) fn now_micros() -> i64 {
    chrono::Utc::now().timestamp_micros()
}

} // verus!
