//! Contracts assumed of outside code: the one `std` string operation that
//! vstd does not specify, and the JSON field lookup done by `serde_json`.

use vstd::prelude::*;

verus! {

/// Relies on std's `String::push`: appending one character to a string.
pub assume_specification[ String::push ](s: &mut String, c: char)
    ensures
        final(s)@ == old(s)@ + seq![c],
;

/// The top-level string field named `key` of the JSON text `json`, if the
/// text is a JSON object carrying such a string field.
pub uninterp spec fn string_field_of(json: Seq<char>, key: Seq<char>) -> Option<Seq<char>>;

/// The view of an optional owned string.
pub open spec fn opt_str_view(o: Option<String>) -> Option<Seq<char>> {
    match o {
        Option::None => None,
        Option::Some(s) => Some(s@),
    }
}

/// Relies on serde_json's `from_str`, `Value::get` and `Value::as_str`:
/// looks up one top-level string field of a JSON object.  The lookup is
/// lenient — text that is not valid JSON, not an object, without the key,
/// or with a non-string field there, yields `None` rather than an error.
#[verifier::external_body]
pub(crate) fn json_string_field(json: &str, key: &str) -> (r: Option<String>)
    ensures
        opt_str_view(r) == string_field_of(json@, key@),
{
    match serde_json::from_str::<serde_json::Value>(json) {
        Ok(v) => v.get(key).and_then(|x| x.as_str()).map(|s| s.to_string()),
        Err(_) => None,
    }
}

} // verus!
