//! JSON documents, read through the `serde_json` crate.
//!
//! A document stays a `serde_json::Value`, which the verifier cannot look
//! into. What the library reads of one is named here, one name per accessor
//! of the crate, and each wrapper says no more than that its result is what
//! the name stands for.

use vstd::prelude::*;

verus! {

#[verifier::external_type_specification]
#[verifier::external_body]
pub struct ExValue(serde_json::Value);

/// The document that `serde_json::from_slice` reads from the bytes, or the
/// text of the error it ends in.
pub uninterp spec fn document_of(bytes: Seq<u8>) -> Result<serde_json::Value, Seq<char>>;

/// What indexing a value by a key gives: the member of that name where the
/// value is an object that has one, and null otherwise.
pub uninterp spec fn member_of(value: serde_json::Value, key: Seq<char>) -> serde_json::Value;

/// The elements of the value where it is an array.
pub uninterp spec fn items_of(value: serde_json::Value) -> Option<Seq<serde_json::Value>>;

/// The text of the value where it is a string.
pub uninterp spec fn text_of(value: serde_json::Value) -> Option<Seq<char>>;

/// The truth value of the value where it is a boolean.
pub uninterp spec fn flag_of(value: serde_json::Value) -> Option<bool>;

/// The value written out as compact JSON.
pub uninterp spec fn rendering_of(value: serde_json::Value) -> Seq<char>;

/// Calls `serde_json::from_slice` for a `Value`. The contract names the
/// outcome: the document, or the text that the crate's error displays as.
#[verifier::external_body]
pub(crate) fn decode(bytes: &[u8]) -> (r: Result<serde_json::Value, String>)
    ensures
        match r {
            Ok(value) => document_of(bytes@) == Ok::<serde_json::Value, Seq<char>>(value),
            Err(e) => document_of(bytes@) == Err::<serde_json::Value, Seq<char>>(e@),
        },
{
    match serde_json::from_slice::<serde_json::Value>(bytes) {
        Ok(value) => Ok(value),
        Err(e) => Err(e.to_string()),
    }
}

/// Indexes a `Value` by a key, which never fails: the crate hands out null
/// where there is no such member. The contract names the result.
#[verifier::external_body]
pub(crate) fn member<'a>(value: &'a serde_json::Value, key: &str) -> (r: &'a serde_json::Value)
    ensures
        *r == member_of(*value, key@),
{
    &value[key]
}

/// Calls `Value::as_array`. The contract names the result.
#[verifier::external_body]
pub(crate) fn items<'a>(value: &'a serde_json::Value) -> (r: Option<&'a Vec<serde_json::Value>>)
    ensures
        match r {
            Some(elements) => items_of(*value) == Some(elements@),
            None => items_of(*value) is None,
        },
{
    value.as_array()
}

/// Calls `Value::as_str`. The contract names the result.
#[verifier::external_body]
pub(crate) fn text<'a>(value: &'a serde_json::Value) -> (r: Option<&'a str>)
    ensures
        match r {
            Some(s) => text_of(*value) == Some(s@),
            None => text_of(*value) is None,
        },
{
    value.as_str()
}

/// Calls `Value::as_bool`. The contract names the result.
#[verifier::external_body]
pub(crate) fn flag(value: &serde_json::Value) -> (r: Option<bool>)
    ensures
        r == flag_of(*value),
{
    value.as_bool()
}

/// Writes a `Value` out through its `Display`, which gives compact JSON.
/// The contract names the result.
#[verifier::external_body]
pub(crate) fn rendering(value: &serde_json::Value) -> (r: String)
    ensures
        r@ == rendering_of(*value),
{
    value.to_string()
}

} // verus!
