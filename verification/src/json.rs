//! The JSON documents of the weather service, read with `serde_json`.
//!
//! A document is an opaque `serde_json::Value`. What it holds is named by the
//! specification functions below, and each accessor states its result over
//! those names; nothing else is assumed about `serde_json`.

use serde_json::{Error, Value};
use vstd::prelude::*;

verus! {

/// A JSON document or a part of one.
#[verifier::external_type_specification]
#[verifier::external_body]
pub struct ExValue(Value);

/// Why a text is no JSON document.
#[verifier::external_type_specification]
#[verifier::external_body]
pub struct ExError(Error);

/// The document that `text` denotes; `None` where `serde_json::from_str`
/// rejects the text.
pub uninterp spec fn json_document(text: Seq<char>) -> Option<Value>;

/// What `Value::get` gives for `value` and the key `key`: the member of the
/// object `value` under `key`; `None` where `value` is no object or has no
/// such member.
pub uninterp spec fn json_member(value: Value, key: Seq<char>) -> Option<Value>;

/// What `Value::as_array` gives for `value`: the elements of the array, in
/// order; `None` where `value` is no array.
pub uninterp spec fn json_items(value: Value) -> Option<Seq<Value>>;

/// What `Value::as_i64` gives for `value`: the integer, where `value` is a
/// number that `serde_json` holds as an integer and that fits 64 signed
/// bits; `None` for every other value.
pub uninterp spec fn json_integer(value: Value) -> Option<i64>;

/// What `Value::as_str` gives for `value`: the characters of the string;
/// `None` where `value` is no string.
pub uninterp spec fn json_text(value: Value) -> Option<Seq<char>>;

/// What `Value::as_f64` gives for `value`, as the bit pattern of that IEEE
/// 754 double; `None` where it gives none, as for a value that is no number.
pub uninterp spec fn json_number_bits(value: Value) -> Option<u64>;

/// What `Value::is_null` gives for `value`: whether it is JSON's `null`.
pub uninterp spec fn json_is_null(value: Value) -> bool;

/// Calls `serde_json::from_str` for a `Value`. The outcome depends on the
/// text alone, so the document it yields is `json_document` of the text.
#[verifier::external_body]
pub(crate) fn parse_document(text: &str) -> (r: Result<Value, Error>)
    ensures
        r is Ok <==> json_document(text@) is Some,
        r is Ok ==> json_document(text@) == Some(r->Ok_0),
{
    serde_json::from_str(text)
}

/// Calls `Value::get` with a string key: the member of an object under that
/// key, `None` for a missing key or a value that is no object.
#[verifier::external_body]
pub(crate) fn member<'a>(value: &'a Value, key: &str) -> (r: Option<&'a Value>)
    ensures
        r is Some <==> json_member(*value, key@) is Some,
        r is Some ==> json_member(*value, key@) == Some(*r->0),
{
    value.get(key)
}

/// Calls `Value::as_array`: the vector of an array's elements, `None` for a
/// value that is no array.
#[verifier::external_body]
pub(crate) fn items(value: &Value) -> (r: Option<&Vec<Value>>)
    ensures
        r is Some <==> json_items(*value) is Some,
        r is Some ==> json_items(*value) == Some(r->0@),
{
    value.as_array()
}

/// Calls `Value::as_i64`: the value of an integer that fits 64 signed bits,
/// `None` for anything else.
#[verifier::external_body]
pub(crate) fn integer(value: &Value) -> (r: Option<i64>)
    ensures
        r == json_integer(*value),
{
    value.as_i64()
}

/// Calls `Value::as_str`: the characters of a string, `None` for a value that
/// is no string.
#[verifier::external_body]
pub(crate) fn text(value: &Value) -> (r: Option<&str>)
    ensures
        r is Some <==> json_text(*value) is Some,
        r is Some ==> json_text(*value) == Some(r->0@),
{
    value.as_str()
}

/// Calls `Value::as_f64` and hands the double on as its bit pattern, or
/// `None` where there is none.
#[verifier::external_body]
pub(crate) fn number_bits(value: &Value) -> (r: Option<u64>)
    ensures
        r == json_number_bits(*value),
{
    value.as_f64().map(|number| number.to_bits())
}

/// Calls `Value::is_null`.
#[verifier::external_body]
pub(crate) fn is_null(value: &Value) -> (r: bool)
    ensures
        r == json_is_null(*value),
{
    value.is_null()
}

} // verus!
