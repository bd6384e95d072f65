//! Instants: microseconds since the Unix epoch, read and written by `chrono`.

use vstd::prelude::*;

verus! {

/// The RFC 3339 text of an instant in UTC, as `chrono` writes it; `None` where the
/// instant lies outside the years that `chrono` can represent.
pub uninterp spec fn rfc3339_text(micros: int) -> Option<Seq<char>>;

/// Calls `chrono::Utc::now` and takes the instant with `DateTime::timestamp_micros`.
/// Trusted, and nothing is claimed of the result: it is the time of the call.
#[verifier::external_body]
pub(crate) fn now_micros() -> (micros: i64) {
    chrono::Utc::now().timestamp_micros()
}

/// Calls `chrono::DateTime::from_timestamp_micros` and writes the result with
/// `DateTime::to_rfc3339`. Trusted: the outcome depends on the number alone.
#[verifier::external_body]
pub(crate) fn format_rfc3339(micros: i64) -> (r: Option<String>)
    ensures
        r.deep_view() == rfc3339_text(micros as int),
{
    match chrono::DateTime::from_timestamp_micros(micros) {
        Some(instant) => Some(instant.to_rfc3339()),
        None => None,
    }
}

} // verus!
