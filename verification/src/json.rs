use serde_json::Value;
use vstd::prelude::*;

use crate::text::string_view;

verus! {

/// `serde_json::Value`, carried through the library as an opaque payload.
#[verifier::external_type_specification]
#[verifier::external_body]
pub struct ExJsonValue(serde_json::Value);

/// `<serde_json::Value as Clone>::clone` (a derived `Clone`): the copy equals the value copied.
pub assume_specification[ <serde_json::Value as Clone>::clone ](value: &serde_json::Value) -> (copy: serde_json::Value)
    ensures
        copy == *value,
;

/// What `Value::get(key)` then `Value::as_u64` yields on a JSON value.
pub uninterp spec fn json_member_u64(value: Value, key: Seq<char>) -> Option<u64>;

/// `serde_json::Value::get` with `key`, read with `Value::as_u64`: the result is named by
/// `json_member_u64`.
#[verifier::external_body]
pub(crate) fn json_u64_member(value: &Value, key: &str) -> (member: Option<u64>)
    ensures
        member == json_member_u64(*value, key@),
{
    value.get(key).and_then(Value::as_u64)
}

/// What `Value::get(key)` then `Value::as_str` yields on a JSON value.
pub uninterp spec fn json_member_text(value: Value, key: Seq<char>) -> Option<Seq<char>>;

/// What `Value::pointer(pointer)` then `Value::as_str` yields on a JSON value.
pub uninterp spec fn json_pointer_text(value: Value, pointer: Seq<char>) -> Option<Seq<char>>;

/// `serde_json::Value::get` with `key`, read with `Value::as_str` and copied: the text is
/// the one named by `json_member_text`.
#[verifier::external_body]
pub(crate) fn json_string_member(value: &Value, key: &str) -> (member: Option<String>)
    ensures
        string_view(member) == json_member_text(*value, key@),
{
    value.get(key).and_then(Value::as_str).map(str::to_string)
}

/// `serde_json::Value::pointer` with a JSON pointer, read with `Value::as_str` and copied:
/// the text is the one named by `json_pointer_text`.
#[verifier::external_body]
pub(crate) fn json_string_at(value: &Value, pointer: &str) -> (member: Option<String>)
    ensures
        string_view(member) == json_pointer_text(*value, pointer@),
{
    value.pointer(pointer).and_then(Value::as_str).map(str::to_string)
}


/// What `Value::get(key)` yields on a JSON value.
pub uninterp spec fn json_member(value: serde_json::Value, key: Seq<char>) -> Option<serde_json::Value>;

/// What `Value::get(key)` then `Value::as_bool` yields on a JSON value.
pub uninterp spec fn json_member_bool(value: serde_json::Value, key: Seq<char>) -> Option<bool>;

/// `serde_json::Value::get` with `key`, copied: the member is the one named by `json_member`.
#[verifier::external_body]
pub(crate) fn json_get(value: &Value, key: &str) -> (member: Option<Value>)
    ensures
        member == json_member(*value, key@),
{
    value.get(key).cloned()
}

/// What `Value::get(key)` then `Value::as_i64` yields on a JSON value.
pub uninterp spec fn json_member_i64(value: serde_json::Value, key: Seq<char>) -> Option<i64>;

/// `serde_json::Value::get` with `key`, read with `Value::as_i64`: the number is the one
/// named by `json_member_i64`.
#[verifier::external_body]
pub(crate) fn json_i64_member(value: &Value, key: &str) -> (member: Option<i64>)
    ensures
        member == json_member_i64(*value, key@),
{
    value.get(key).and_then(Value::as_i64)
}

/// `serde_json::Value::get` with `key`, read with `Value::as_bool`: the flag is the one named
/// by `json_member_bool`.
#[verifier::external_body]
pub(crate) fn json_bool_member(value: &Value, key: &str) -> (member: Option<bool>)
    ensures
        member == json_member_bool(*value, key@),
{
    value.get(key).and_then(Value::as_bool)
}

/// What `Value::as_array` yields on a JSON value: its items when it is an array.
pub uninterp spec fn json_elements(value: serde_json::Value) -> Option<Seq<serde_json::Value>>;

/// `serde_json::Value::as_array`, its items copied: the items are the ones named by
/// `json_elements`, in order.
#[verifier::external_body]
pub(crate) fn json_array(value: &Value) -> (items: Option<Vec<Value>>)
    ensures
        items matches Some(v) ==> json_elements(*value) == Some(v@),
        items is None ==> json_elements(*value) is None,
{
    value.as_array().cloned()
}

/// What `Value::is_object` says of a JSON value.
pub uninterp spec fn json_is_object(value: serde_json::Value) -> bool;

/// `serde_json::Value::is_object`: the answer named by `json_is_object`.
#[verifier::external_body]
pub(crate) fn json_object(value: &Value) -> (is_object: bool)
    ensures
        is_object == json_is_object(*value),
{
    value.is_object()
}

} // verus!
