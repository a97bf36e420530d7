//! The one trusted boundary to `serde_json`: reading a top-level string field
//! out of a JSON document. Everything the library decides about manifest
//! contents goes through this single call.

use vstd::prelude::*;

verus! {

/// The string value of the top-level field `key` of the JSON document `text`:
/// `Some` exactly when `text` is valid JSON, its top level is an object, the
/// field is present and the field's value is a string. A pure function of the
/// two texts; its value is known only through `json_string_field`.
pub uninterp spec fn json_string_field_of(text: Seq<char>, key: Seq<char>) -> Option<Seq<char>>;

/// Relies on `serde_json::from_str::<Value>` (parses the document, erring on
/// invalid JSON), `serde_json::Value::get` (`Some` of the value under `key`
/// exactly when the value is an object with that key) and
/// `serde_json::Value::as_str` (`Some` of the string contents exactly when
/// the value is a JSON string). All three are pure functions of `text` and
/// `key`, so together they realise `json_string_field_of`.
#[verifier::external_body]
pub(crate) fn json_string_field(text: &str, key: &str) -> (r: Option<String>)
    ensures
        r.deep_view() == json_string_field_of(text@, key@),
{
    match serde_json::from_str::<serde_json::Value>(text) {
        Ok(doc) => match doc.get(key) {
            Some(field) => field.as_str().map(|s| s.to_owned()),
            None => None,
        },
        Err(_) => None,
    }
}

} // verus!
