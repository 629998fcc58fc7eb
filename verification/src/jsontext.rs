//! Reading one member out of JSON text, through `serde_json`.

use vstd::prelude::*;

verus! {

/// The string member `key` of the JSON object written in `text`: `None` when `text`
/// is not valid JSON, not an object, has no member `key`, or that member is not a string.
pub uninterp spec fn json_string_member(text: Seq<char>, key: Seq<char>) -> Option<Seq<char>>;

/// Trusted: parses `text` with `serde_json::from_str` into a `serde_json::Value`, then
/// takes `Value::get(key)` and `Value::as_str`. The result is named
/// `json_string_member(text, key)`; what that is on given values is not stated here.
#[verifier::external_body]
pub fn string_member(text: &str, key: &str) -> (r: Option<String>)
    ensures
        r is Some <==> json_string_member(text@, key@) is Some,
        r matches Some(s) ==> json_string_member(text@, key@) == Some(s@),
{
    let v: serde_json::Value = serde_json::from_str(text).ok()?;
    v.get(key).and_then(|m| m.as_str()).map(|s| s.to_string())
}

/// The elements, in order, of the array member `key` of the JSON object written in
/// `text`, each as its text when it is a string and `None` when it is not: `None` as a
/// whole when `text` is not valid JSON, not an object, has no member `key`, or that
/// member is not an array.
pub uninterp spec fn json_array_member_strings(text: Seq<char>, key: Seq<char>) -> Option<Seq<Option<Seq<char>>>>;

/// The character sequence of an optional string.
pub open spec fn opt_view(o: Option<String>) -> Option<Seq<char>> {
    match o {
        Some(s) => Some(s@),
        None => None,
    }
}

/// Trusted: parses `text` with `serde_json::from_str` into a `serde_json::Value`, then
/// takes `Value::get(key)`, `Value::as_array`, and `Value::as_str` of each element. The
/// result is named `json_array_member_strings(text, key)`.
#[verifier::external_body]
pub fn array_member_strings(text: &str, key: &str) -> (r: Option<Vec<Option<String>>>)
    ensures
        r is Some <==> json_array_member_strings(text@, key@) is Some,
        r matches Some(v) ==> json_array_member_strings(text@, key@) == Some(
            v@.map_values(|o: Option<String>| opt_view(o)),
        ),
{
    let v: serde_json::Value = serde_json::from_str(text).ok()?;
    let items = v.get(key)?.as_array()?;
    Some(items.iter().map(|s| s.as_str().map(|t| t.to_string())).collect())
}

} // verus!
