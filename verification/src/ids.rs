//! Identifiers.
//!
//! Entities are keyed by 128-bit identifiers.  The service mints them as
//! random UUIDs and receives them from clients as UUID texts; here they are
//! carried as plain `u128` values.
use vstd::prelude::*;

verus! {

/// The 128-bit value that a UUID text denotes, if the text is a well-formed
/// UUID, and nothing otherwise.  Parsing is a function of the text alone;
/// its exact shape is left to the outside parser.
pub uninterp spec fn uuid_value_of(s: Seq<char>) -> Option<u128>;

/// Relies on `uuid::Uuid::try_parse`: whether a text parses, and to which
/// 128-bit value, depends on the text alone.
#[verifier::external_body]
pub(crate) fn parse_uuid_text(s: &str) -> (r: Option<u128>)
    ensures
        r == uuid_value_of(s@),
{
    match uuid::Uuid::try_parse(s) {
        Ok(u) => Some(u.as_u128()),
        Err(_) => None,
    }
}

/// Relies on `uuid::Uuid::new_v4`: a freshly drawn random identifier.
/// Nothing is promised of its value.
#[verifier::external_body]
pub(crate) fn fresh_id() -> u128 {
    uuid::Uuid::new_v4().as_u128()
}

} // verus!
