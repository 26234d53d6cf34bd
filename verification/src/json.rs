//! JSON values, as `serde_json` holds them.

use serde_json::Value;
use vstd::prelude::*;

verus! {

/// A JSON value is opaque here: what it holds is told by [`json_text`].
#[verifier::external_type_specification]
#[verifier::external_body]
pub struct ExValue(serde_json::Value);

/// The contents of a JSON value: its text in the compact form.
pub uninterp spec fn json_text(value: serde_json::Value) -> Seq<char>;

/// Whether `text` starts as the text of an array does, and of no other JSON value.
pub open spec fn is_array_text(text: Seq<char>) -> bool {
    text.len() > 0 && text[0] == '['
}

/// Whether `text` starts as the text of an object does, and of no other JSON value.
pub open spec fn is_object_text(text: Seq<char>) -> bool {
    text.len() > 0 && text[0] == '{'
}

/// `serde_json::Value::is_null` tells the one value that is written `null`.
pub assume_specification[ serde_json::Value::is_null ](value: &serde_json::Value) -> (r: bool)
    ensures
        r == (json_text(*value) == "null"@),
;

/// `serde_json::Value::is_array` tells the values that are written with a
/// bracket in front.
pub assume_specification[ serde_json::Value::is_array ](value: &serde_json::Value) -> (r: bool)
    ensures
        r == is_array_text(json_text(*value)),
;

/// `serde_json::Value::is_object` tells the values that are written with a brace
/// in front.
pub assume_specification[ serde_json::Value::is_object ](value: &serde_json::Value) -> (r: bool)
    ensures
        r == is_object_text(json_text(*value)),
;

/// The `Display` text of a `serde_json::Value` is its compact text.
#[verifier::external_body]
pub(crate) fn to_text(value: &Value) -> (r: String)
    ensures
        r@ == json_text(*value),
{
    value.to_string()
}

/// `serde_json::Value::Array` of one element is written as that element between
/// brackets.
#[verifier::external_body]
pub(crate) fn array_of(value: Value) -> (r: Value)
    ensures
        json_text(r) == seq!['['] + json_text(value) + seq![']'],
{
    Value::Array(vec![value])
}

/// `serde_json::to_value` turns the unit value into `null`.
#[verifier::external_body]
pub(crate) fn unit_value() -> (r: Value)
    ensures
        json_text(r) == "null"@,
{
    serde_json::to_value(()).unwrap()
}

} // verus!
