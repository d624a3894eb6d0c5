//! JSON values, read with the `serde_json` crate.
//!
//! A value is opaque here. What is known of one is what `serde_json` answers
//! when asked, and each answer has a name that contracts can speak of.

use crate::text::str_of;
use vstd::prelude::*;

verus! {

/// `serde_json::Value`, made known so that a value can be handed on. Nothing
/// inside one is visible.
#[verifier::external_type_specification]
#[verifier::external_body]
pub struct ExValue(serde_json::Value);

/// The value that a text parses to with `serde_json::from_slice`, where it
/// is one JSON value and nothing else.
pub uninterp spec fn parsed(bytes: Seq<u8>) -> Option<serde_json::Value>;

/// The member of an object under a key, as `Value::get` finds it. What is no
/// object has no members.
pub uninterp spec fn member(value: serde_json::Value, key: Seq<char>) -> Option<serde_json::Value>;

/// The elements of an array, as `Value::as_array` gives them. What is no
/// array has none.
pub uninterp spec fn elements(value: serde_json::Value) -> Option<Seq<serde_json::Value>>;

/// The characters of a string, as `Value::as_str` gives them. What is no
/// string has none.
pub uninterp spec fn string(value: serde_json::Value) -> Option<Seq<char>>;

/// Parses `bytes` with `serde_json::from_slice`, which fails unless they are
/// exactly one JSON value in UTF-8.
///
/// Nothing is proved of this function: the contract names the result,
/// [`parsed`], and claims only that it depends on the bytes alone.
#[verifier::external_body]
pub(crate) fn parse(bytes: &[u8]) -> (r: Option<serde_json::Value>)
    ensures
        r == parsed(bytes@),
{
    serde_json::from_slice::<serde_json::Value>(bytes).ok()
}

/// Looks a key up with `Value::get`, which finds the member of an object
/// and nothing in any other value.
///
/// Nothing is proved of this function: the contract names the result,
/// [`member`].
#[verifier::external_body]
pub(crate) fn get<'a>(value: &'a serde_json::Value, key: &str) -> (r: Option<
    &'a serde_json::Value,
>)
    ensures
        match r {
            Some(found) => member(*value, key@) == Some(*found),
            None => member(*value, key@) is None,
        },
{
    value.get(key)
}

/// Borrows the elements of an array with `Value::as_array`, which gives
/// nothing for any other value.
///
/// Nothing is proved of this function: the contract names the result,
/// [`elements`].
#[verifier::external_body]
pub(crate) fn as_array<'a>(value: &'a serde_json::Value) -> (r: Option<
    &'a Vec<serde_json::Value>,
>)
    ensures
        match r {
            Some(items) => elements(*value) == Some(items@),
            None => elements(*value) is None,
        },
{
    value.as_array()
}

/// Borrows the text of a string with `Value::as_str`, which gives nothing
/// for any other value.
///
/// Nothing is proved of this function: the contract names the result,
/// [`string`].
#[verifier::external_body]
pub(crate) fn as_str<'a>(value: &'a serde_json::Value) -> (r: Option<&'a str>)
    ensures
        str_of(r) == string(*value),
{
    value.as_str()
}

} // verus!
