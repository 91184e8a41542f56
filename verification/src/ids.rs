//! Job identifiers: 128-bit values drawn as random UUIDs, carried over the
//! untyped queue transport in their hyphenated text form.

use vstd::prelude::*;

verus! {

/// The hyphenated lowercase text form the uuid crate prints for a 128-bit
/// identifier.
pub uninterp spec fn uuid_str_of(id: u128) -> Seq<char>;

/// The identifier a string denotes to the uuid crate's parser, or None when
/// the string is not a UUID.
pub uninterp spec fn uuid_of(s: Seq<char>) -> Option<u128>;

/// Relies on uuid::Uuid::new_v4 and uuid::Uuid::as_u128: a freshly drawn
/// random identifier. Nothing is promised of the value.
#[verifier::external_body]
pub(crate) fn fresh_job_id() -> u128 {
    uuid::Uuid::new_v4().as_u128()
}

/// Relies on uuid::Uuid::from_u128 and the uuid crate's Display impl, which
/// prints the hyphenated lowercase form; uuid::Uuid::parse_str documents
/// that it accepts that form and returns the same identifier.
#[verifier::external_body]
pub(crate) fn job_id_string(id: u128) -> (r: String)
    ensures
        r@ == uuid_str_of(id),
        uuid_of(r@) == Option::Some(id),
{
    uuid::Uuid::from_u128(id).to_string()
}

/// Relies on uuid::Uuid::parse_str and uuid::Uuid::as_u128: whether a
/// string parses as a UUID, and to which identifier, depends on its
/// characters alone.
#[verifier::external_body]
pub(crate) fn parse_job_id(s: &str) -> (r: Option<u128>)
    ensures
        r == uuid_of(s@),
{
    match uuid::Uuid::parse_str(s) {
        Ok(u) => Some(u.as_u128()),
        Err(_) => None,
    }
}

} // verus!
