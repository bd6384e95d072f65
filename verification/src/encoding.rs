//! Base64 and JSON, both left to the crates that implement them.

use vstd::prelude::*;

verus! {

/// The standard padded base64 text of `data`, as the `base64` crate produces it.
pub uninterp spec fn base64_text(data: Seq<u8>) -> Seq<char>;

/// What a JSON document holds under a top-level key, as `serde_json` reads it:
/// `Err` with the parser's message where `body` is not JSON, `Ok(None)` where the
/// document has no string under `key`, `Ok(Some(text))` where it has.
pub uninterp spec fn json_text_field(body: Seq<char>, key: Seq<char>) -> Result<
    Option<Seq<char>>,
    Seq<char>,
>;

/// Calls `base64::encode`. Trusted: the result is the crate's standard encoding of
/// `data`, a function of the bytes alone.
#[verifier::external_body]
pub(crate) fn encode_base64(data: &Vec<u8>) -> (r: String)
    ensures
        r@ == base64_text(data@),
{
    #[allow(deprecated)]
    base64::encode(data)
}

/// Calls `serde_json::from_str` for a `serde_json::Value`, then `Value::get` and
/// `Value::as_str`. Trusted: the outcome depends on `body` and `key` alone; the
/// parser's error is handed on as its message.
#[verifier::external_body]
pub(crate) fn read_text_field(body: &str, key: &str) -> (r: Result<Option<String>, String>)
    ensures
        match r {
            Ok(Some(text)) => json_text_field(body@, key@) == Ok::<Option<Seq<char>>, Seq<char>>(
                Some(text@),
            ),
            Ok(None) => json_text_field(body@, key@) == Ok::<Option<Seq<char>>, Seq<char>>(None),
            Err(message) => json_text_field(body@, key@) == Err::<Option<Seq<char>>, Seq<char>>(
                message@,
            ),
        },
{
    match serde_json::from_str::<serde_json::Value>(body) {
        Ok(document) => Ok(document.get(key).and_then(|field| field.as_str()).map(String::from)),
        Err(error) => Err(error.to_string()),
    }
}

} // verus!
