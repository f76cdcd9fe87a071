//! Decoding of the stored project configuration.

use vstd::prelude::*;

verus! {

/// What decoding `json` yields for the member `key`: the decoder's message
/// when `json` is not a JSON document, otherwise the member's value when it
/// is a string, and nothing when the member is absent or not a string.
pub uninterp spec fn decoded_member(json: Seq<u8>, key: Seq<char>) -> Result<Option<Seq<char>>, Seq<char>>;

/// Relies on `serde_json::from_slice` into a `serde_json::Value`, then on
/// `Value::get` and `Value::as_str` to read one string member of an object.
#[verifier::external_body]
pub(crate) fn decode_member(json: &[u8], key: &str) -> (r: Result<Option<String>, String>)
    ensures
        match r {
            Ok(Some(s)) => decoded_member(json@, key@) == Ok::<Option<Seq<char>>, Seq<char>>(Some(s@)),
            Ok(None) => decoded_member(json@, key@) == Ok::<Option<Seq<char>>, Seq<char>>(None),
            Err(m) => decoded_member(json@, key@) == Err::<Option<Seq<char>>, Seq<char>>(m@),
        },
{
    serde_json::from_slice::<serde_json::Value>(json)
        .map(|v| v.get(key).and_then(serde_json::Value::as_str).map(String::from))
        .map_err(|e| e.to_string())
}

} // verus!
