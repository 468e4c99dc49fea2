//! The JSON calls that decoding an index line makes, with what is relied on
//! of each.
use vstd::prelude::*;

verus! {

#[verifier::external_type_specification]
#[verifier::external_body]
pub struct ExValue(serde_json::Value);

/// The value that `serde_json::from_slice` reads from these bytes, if they
/// are a well-formed JSON document.
pub uninterp spec fn parsed(bytes: Seq<u8>) -> Option<serde_json::Value>;

/// The member stored under `key` when the value is an object holding it.
pub uninterp spec fn member_of(v: serde_json::Value, key: Seq<char>) -> Option<serde_json::Value>;

/// The text of the value when it is a JSON string.
pub uninterp spec fn text_value(v: serde_json::Value) -> Option<Seq<char>>;

/// The flag of the value when it is a JSON boolean.
pub uninterp spec fn bool_value(v: serde_json::Value) -> Option<bool>;

/// Relies on `serde_json::from_slice::<Value>`: the document is read from the
/// bytes alone, and bytes that are not UTF-8 JSON give an error.
#[verifier::external_body]
pub(crate) fn parse_value(bytes: &[u8]) -> (r: Option<serde_json::Value>)
    ensures
        r == parsed(bytes@),
{
    serde_json::from_slice::<serde_json::Value>(bytes).ok()
}

/// Relies on `serde_json::Value::get` with a string key: the member of an
/// object under that key, nothing for any other value.
#[verifier::external_body]
pub(crate) fn member(v: &serde_json::Value, key: &str) -> (r: Option<serde_json::Value>)
    ensures
        r == member_of(*v, key@),
{
    v.get(key).cloned()
}

/// Relies on `serde_json::Value::as_str`: the text of a string value.
#[verifier::external_body]
pub(crate) fn text(v: &serde_json::Value) -> (r: Option<String>)
    ensures
        match r {
            Some(s) => text_value(*v) == Some(s@),
            None => text_value(*v) is None,
        },
{
    v.as_str().map(String::from)
}

/// Relies on `serde_json::Value::as_bool`: the flag of a boolean value.
pub assume_specification[ serde_json::Value::as_bool ](v: &serde_json::Value) -> (r: Option<bool>)
    ensures
        r == bool_value(*v),
;

} // verus!
