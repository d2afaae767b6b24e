//! JSON values and how they are written.

use vstd::prelude::*;
use vstd::utf8::encode_utf8;

verus! {

/// A JSON value, carried and never looked into.
#[verifier::external_type_specification]
#[verifier::external_body]
pub struct ExJsonValue(serde_json::Value);

/// `Clone` of `serde_json::Value`: the same value once more.
pub assume_specification[ <serde_json::Value as Clone>::clone ](v: &serde_json::Value) -> (r:
    serde_json::Value)
    ensures
        r == *v,
;

/// The compact text that `Display` of `serde_json::Value` writes for a value.
pub uninterp spec fn json_text(value: serde_json::Value) -> Seq<char>;

/// Whether a text stands in a JSON string as it is: nothing in it is a quotation mark, a
/// backslash or a control character.
pub open spec fn needs_no_escape(text: Seq<char>) -> bool {
    forall|i: int|
        0 <= i < text.len() ==> (#[trigger] text[i]) >= ' ' && text[i] != '"' && text[i] != '\\'
}

/// The compact text of an object with one member, whose value is a string.
pub open spec fn object_text(key: Seq<char>, value: Seq<char>) -> Seq<char> {
    seq!['{', '"'] + key + seq!['"', ':', '"'] + value + seq!['"', '}']
}

/// `Display` of `serde_json::Value`: writes the value in compact form.
#[verifier::external_body]
pub(crate) fn value_to_text(value: &serde_json::Value) -> (text: String)
    ensures
        text@ == json_text(*value),
{
    value.to_string()
}

/// `serde_json::to_vec` on a `serde_json::Value`: it always succeeds, since the keys of a
/// value are strings and nothing fails to be written to a `Vec`, and it writes the same
/// compact text that `Display` writes, in UTF-8.
#[verifier::external_body]
pub(crate) fn value_to_bytes(value: &serde_json::Value) -> (r: Result<Vec<u8>, serde_json::Error>)
    ensures
        r is Ok,
        r matches Ok(bytes) ==> bytes@ == encode_utf8(json_text(*value)),
{
    serde_json::to_vec(value)
}

/// A `serde_json::Value` that is an object with one member, whose value is a string: its
/// compact text holds the key and the string as they are where they need no escape.
#[verifier::external_body]
pub(crate) fn object_value(key: &str, value: &str) -> (object: serde_json::Value)
    ensures
        needs_no_escape(key@) && needs_no_escape(value@) ==> json_text(object) == object_text(
            key@,
            value@,
        ),
{
    let mut members = serde_json::Map::new();
    members.insert(key.to_string(), serde_json::Value::String(value.to_string()));
    serde_json::Value::Object(members)
}

} // verus!
