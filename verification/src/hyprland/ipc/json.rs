//! JSON documents, read through `serde_json`.
//!
//! Parsing is `serde_json`'s work and is not verified here. A parsed document
//! is opaque; what the accessors of `serde_json` say of it has a name each, and
//! the decoders of this library are verified against those names.

use serde_json::{Number, Value};
use vstd::prelude::*;

use crate::hyprland::error::JsonSyntaxError;

verus! {

/// A JSON document of `serde_json`.
#[verifier::external_type_specification]
#[verifier::external_body]
pub struct ExJsonValue(Value);

/// A JSON number of `serde_json`, kept as it was written.
#[verifier::external_type_specification]
#[verifier::external_body]
pub struct ExJsonNumber(Number);

/// `Clone` of `serde_json::Number`: the copy is the same number.
pub assume_specification[ <Number as Clone>::clone ](n: &Number) -> (r: Number)
    ensures
        r == *n,
;

/// The document that `serde_json` reads from `bytes`, if they are well-formed
/// JSON.
pub uninterp spec fn json_document(bytes: Seq<u8>) -> Option<Value>;

/// The member `key` of `value`, if `value` is an object that has one.
pub uninterp spec fn json_member(value: Value, key: Seq<char>) -> Option<Value>;

/// Whether `value` is an object.
pub uninterp spec fn json_is_object(value: Value) -> bool;

/// Whether `value` is `null`.
pub uninterp spec fn json_is_null(value: Value) -> bool;

/// The elements of `value`, if it is an array.
pub uninterp spec fn json_elements(value: Value) -> Option<Seq<Value>>;

/// The text of `value`, if it is a string.
pub uninterp spec fn json_text(value: Value) -> Option<Seq<char>>;

/// The truth value of `value`, if it is `true` or `false`.
pub uninterp spec fn json_bool(value: Value) -> Option<bool>;

/// `value` as an unsigned integer, if it is an integer from 0 to `u64::MAX`.
pub uninterp spec fn json_u64(value: Value) -> Option<u64>;

/// `value` as a signed integer, if it is an integer from `i64::MIN` to
/// `i64::MAX`.
pub uninterp spec fn json_i64(value: Value) -> Option<i64>;

/// The number that `value` is, if it is one.
pub uninterp spec fn json_number(value: Value) -> Option<Number>;

/// `serde_json::from_slice` into a `Value`: parses `bytes` as one JSON
/// document. The outcome depends on `bytes` alone and is named
/// [`json_document`]; of the error only its presence is claimed.
#[verifier::external_body]
pub(crate) fn parse_document(bytes: &[u8]) -> (r: Result<Value, JsonSyntaxError>)
    ensures
        match r {
            Ok(value) => json_document(bytes@) == Some(value),
            Err(_) => json_document(bytes@) is None,
        },
{
    serde_json::from_slice::<Value>(bytes).map_err(
        |e| JsonSyntaxError { line: e.line(), column: e.column(), message: e.to_string() },
    )
}

/// `Value::get` with a string: the member `key` of an object, `None` for
/// anything that is no object or has no such member.
#[verifier::external_body]
pub(crate) fn member<'a>(value: &'a Value, key: &str) -> (r: Option<&'a Value>)
    ensures
        match r {
            Some(m) => json_member(*value, key@) == Some(*m),
            None => json_member(*value, key@) is None,
        },
{
    value.get(key)
}

/// `Value::is_object`.
#[verifier::external_body]
pub(crate) fn is_object(value: &Value) -> (r: bool)
    ensures
        r == json_is_object(*value),
{
    value.is_object()
}

/// `Value::is_null`.
#[verifier::external_body]
pub(crate) fn is_null(value: &Value) -> (r: bool)
    ensures
        r == json_is_null(*value),
{
    value.is_null()
}

/// `Value::as_array`: the elements of an array, in order.
#[verifier::external_body]
pub(crate) fn elements<'a>(value: &'a Value) -> (r: Option<&'a Vec<Value>>)
    ensures
        match r {
            Some(items) => json_elements(*value) == Some(items@),
            None => json_elements(*value) is None,
        },
{
    value.as_array()
}

/// `Value::as_str`: the text of a string.
#[verifier::external_body]
pub(crate) fn text<'a>(value: &'a Value) -> (r: Option<&'a str>)
    ensures
        match r {
            Some(s) => json_text(*value) == Some(s@),
            None => json_text(*value) is None,
        },
{
    value.as_str()
}

/// `Value::as_bool`.
#[verifier::external_body]
pub(crate) fn boolean(value: &Value) -> (r: Option<bool>)
    ensures
        r == json_bool(*value),
{
    value.as_bool()
}

/// `Value::as_u64`: an integer that fits `u64`; `None` for every other
/// value, a number with a fraction or an exponent included.
#[verifier::external_body]
pub(crate) fn unsigned(value: &Value) -> (r: Option<u64>)
    ensures
        r == json_u64(*value),
{
    value.as_u64()
}

/// `Value::as_i64`: an integer that fits `i64`; `None` for every other value.
#[verifier::external_body]
pub(crate) fn signed(value: &Value) -> (r: Option<i64>)
    ensures
        r == json_i64(*value),
{
    value.as_i64()
}

/// `Value::as_number`, cloned: the number of a numeric value.
#[verifier::external_body]
pub(crate) fn number(value: &Value) -> (r: Option<Number>)
    ensures
        r == json_number(*value),
{
    value.as_number().cloned()
}

} // verus!
