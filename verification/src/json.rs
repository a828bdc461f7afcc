//! The boundary to `serde_json`: the type that passes through the library
//! unread, and the one question the library asks of a JSON text.

use vstd::prelude::*;

verus! {

/// `serde_json::Value`, carried through request values as it is; nothing in
/// this crate looks inside one.
#[verifier::external_type_specification]
#[verifier::external_body]
pub struct ExJsonValue(serde_json::Value);

/// The string that the JSON text `text` holds under `key`, as `serde_json`
/// reads it: `Some` when `serde_json` parses `text`, the parsed value is an
/// object, the object has a member `key`, and that member is a string; `None`
/// in every other case.
pub uninterp spec fn json_string_member(text: Seq<char>, key: Seq<char>) -> Option<Seq<char>>;

/// Calls `serde_json::from_str` for a `serde_json::Value`, then
/// `Value::get` with `key` and `Value::as_str` on what was found.
///
/// Trusted: the result is a function of the two texts alone, and it is the
/// one that [`json_string_member`] names. A text that does not parse, a value
/// that is no object, a missing member and a member that is no string all
/// give `None`.
#[verifier::external_body]
pub(crate) fn string_member(text: &str, key: &str) -> (found: Option<String>)
    ensures
        found.deep_view() == json_string_member(text@, key@),
{
    match serde_json::from_str::<serde_json::Value>(text) {
        Ok(value) => value.get(key).and_then(|member| member.as_str()).map(|s| s.to_string()),
        Err(_) => None,
    }
}

} // verus!
