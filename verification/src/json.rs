//! Reading JSON documents and writing JSON strings. Both are the work of
//! `serde_json`; this module names what the parser finds and what the
//! writer writes, so that the decoders and the encoder can say what they
//! return.

use vstd::prelude::*;

verus! {

/// A parsed JSON document, or a part of one.
#[verifier::external_type_specification]
#[verifier::external_body]
pub struct ExValue(serde_json::Value);

/// Why a text is no JSON document.
#[verifier::external_type_specification]
#[verifier::external_body]
pub struct ExError(serde_json::Error);

/// The document that `text` holds, if it is JSON.
pub uninterp spec fn parsed(text: Seq<char>) -> Option<serde_json::Value>;

/// The member `key` of `value`, if `value` is an object that has one.
pub uninterp spec fn member_of(value: serde_json::Value, key: Seq<char>) -> Option<
    serde_json::Value,
>;

/// The number that `value` holds, if it is a number written as an integer
/// from 0 to 2^64 - 1.
pub uninterp spec fn number_of(value: serde_json::Value) -> Option<u64>;

/// The items of `value`, in their order, if `value` is an array.
pub uninterp spec fn items_of(value: serde_json::Value) -> Option<Seq<serde_json::Value>>;

/// Parses `text`.
///
/// Trusted: calls `serde_json::from_str` for a `serde_json::Value`. The
/// contract names the document and claims that the call fails exactly where
/// there is none.
#[verifier::external_body]
pub(crate) fn parse(text: &str) -> (r: Result<serde_json::Value, serde_json::Error>)
    ensures
        match r {
            Ok(value) => parsed(text@) == Some(value),
            Err(_) => parsed(text@) is None,
        },
{
    serde_json::from_str::<serde_json::Value>(text)
}

/// Looks up the member `key` of `value`.
///
/// Trusted: calls `serde_json::Value::get` with a string index, which finds
/// a member of an object by its key and nothing in any other value. The
/// contract names the member.
#[verifier::external_body]
pub(crate) fn member<'a>(value: &'a serde_json::Value, key: &str) -> (r: Option<
    &'a serde_json::Value,
>)
    ensures
        match r {
            Some(found) => member_of(*value, key@) == Some(*found),
            None => member_of(*value, key@) is None,
        },
{
    value.get(key)
}

/// Reads `value` as a number.
///
/// Trusted: calls `serde_json::Value::as_u64`, which returns the number of
/// a value that holds a non-negative integer of at most 64 bits and nothing
/// for any other value. The contract names the number.
#[verifier::external_body]
pub(crate) fn number(value: &serde_json::Value) -> (r: Option<u64>)
    ensures
        r == number_of(*value),
{
    value.as_u64()
}

/// Reads `value` as an array and copies its items.
///
/// Trusted: calls `serde_json::Value::as_array`, which returns the items of
/// an array and nothing for any other value. The contract names the items.
#[verifier::external_body]
pub(crate) fn items(value: &serde_json::Value) -> (r: Option<Vec<serde_json::Value>>)
    ensures
        match r {
            Some(found) => items_of(*value) == Some(found@),
            None => items_of(*value) is None,
        },
{
    value.as_array().cloned()
}

/// The JSON string literal that holds `text`: `text` between quotes, with
/// the quote, the backslash and the control characters escaped.
pub uninterp spec fn json_string(text: Seq<char>) -> Seq<char>;

/// Writes `text` as a JSON string literal.
///
/// Trusted: calls `serde_json::to_string` on a `str`. The contract names
/// the result. The call writes into memory and has no way to fail for a
/// string; were it to fail, the literal would be empty.
#[verifier::external_body]
pub(crate) fn quote(text: &str) -> (r: String)
    ensures
        r@ == json_string(text@),
{
    match serde_json::to_string(text) {
        Ok(literal) => literal,
        Err(_) => String::new(),
    }
}

/// Copies `value`.
///
/// Trusted: calls `Clone::clone` of `serde_json::Value`, which the crate
/// derives: the copy equals the value copied.
#[verifier::external_body]
pub(crate) fn copy_value(value: &serde_json::Value) -> (r: serde_json::Value)
    ensures
        r == *value,
{
    value.clone()
}

/// The member `key` of `value` as a number of 32 bits, where there is one.
pub open spec fn u32_member_of(value: serde_json::Value, key: Seq<char>) -> Option<u32> {
    match member_of(value, key) {
        Some(found) => match number_of(found) {
            Some(n) => if n <= u32::MAX {
                Some(n as u32)
            } else {
                None
            },
            None => None,
        },
        None => None,
    }
}

/// The items of the member `key` of `value`, where it is an array.
pub open spec fn items_member_of(value: serde_json::Value, key: Seq<char>) -> Option<
    Seq<serde_json::Value>,
> {
    match member_of(value, key) {
        Some(found) => items_of(found),
        None => None,
    }
}

/// The member `key` of `value` as a number of 32 bits.
pub fn u32_member(value: &serde_json::Value, key: &str) -> (r: Option<u32>)
    ensures
        r == u32_member_of(*value, key@),
{
    match member(value, key) {
        Some(found) => match number(found) {
            Some(n) => if n <= 0xffff_ffff {
                Some(n as u32)
            } else {
                None
            },
            None => None,
        },
        None => None,
    }
}

/// The items of the member `key` of `value`.
pub fn items_member(value: &serde_json::Value, key: &str) -> (r: Option<Vec<serde_json::Value>>)
    ensures
        match r {
            Some(found) => items_member_of(*value, key@) == Some(found@),
            None => items_member_of(*value, key@) is None,
        },
{
    match member(value, key) {
        Some(found) => items(found),
        None => None,
    }
}

} // verus!
