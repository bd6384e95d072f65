//! Identifiers: 128-bit numbers with the textual form of a UUID.

use vstd::prelude::*;

verus! {

/// The hyphenated lower-case text of an identifier, as the `uuid` crate writes it.
pub uninterp spec fn uuid_text(id: u128) -> Seq<char>;

/// The identifier that a text spells, as the `uuid` crate reads it; `None` where
/// the text is no UUID.
pub uninterp spec fn uuid_value(text: Seq<char>) -> Option<u128>;

/// Calls `uuid::Uuid::new_v4` and takes the number with `Uuid::as_u128`. Trusted,
/// and nothing is claimed of the result: it is random.
#[verifier::external_body]
pub(crate) fn random_id() -> (id: u128) {
    uuid::Uuid::new_v4().as_u128()
}

/// Calls `uuid::Uuid::from_u128` and writes the result with its `Display`.
/// Trusted: the text depends on the number alone.
#[verifier::external_body]
pub(crate) fn format_id(id: u128) -> (r: String)
    ensures
        r@ == uuid_text(id),
{
    uuid::Uuid::from_u128(id).to_string()
}

/// Calls `uuid::Uuid::parse_str` and takes the number with `Uuid::as_u128`.
/// Trusted: the outcome depends on the text alone; a parse error becomes `None`.
#[verifier::external_body]
pub(crate) fn parse_id(text: &str) -> (r: Option<u128>)
    ensures
        r == uuid_value(text@),
{
    match uuid::Uuid::parse_str(text) {
        Ok(id) => Some(id.as_u128()),
        Err(_) => None,
    }
}

} // verus!
