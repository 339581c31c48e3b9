//! The boundary with `serde_json`.
//!
//! A [`Value`] is opaque to the verifier. Everything the rest of the crate
//! knows about one comes from the accessors below, whose contracts are taken
//! on trust from `serde_json` and tie each call to a specification-level name.

use serde_json::Value;
use vstd::prelude::*;

verus! {

#[verifier::external_type_specification]
#[verifier::external_body]
pub struct ExValue(serde_json::Value);

#[verifier::external_type_specification]
#[verifier::external_body]
pub struct ExJsonError(serde_json::Error);

/// What `serde_json::from_slice` makes of `bytes`: the document they encode,
/// or the error with which it rejects them.
pub uninterp spec fn read_bytes(bytes: Seq<u8>) -> Result<Value, serde_json::Error>;

/// What `serde_json::from_str` makes of `text`: the document it encodes, or
/// the error with which it rejects the text.
pub uninterp spec fn read_text(text: Seq<char>) -> Result<Value, serde_json::Error>;

/// The member that `Value::get` finds under `key`: `None` unless `value` is an
/// object that has the key.
pub uninterp spec fn member(value: Value, key: Seq<char>) -> Option<Value>;

/// The elements that `Value::as_array` hands out: `None` unless `value` is an
/// array.
pub uninterp spec fn elements(value: Value) -> Option<Seq<Value>>;

/// The text that `Value::as_str` hands out: `None` unless `value` is a string.
pub uninterp spec fn string_of(value: Value) -> Option<Seq<char>>;

/// Calls `serde_json::from_slice` for a `Value`. Trusted: the outcome,
/// document or error, depends on the bytes alone; [`read_bytes`] names it.
#[verifier::external_body]
pub(crate) fn parse_bytes(bytes: &[u8]) -> (parsed: Result<Value, serde_json::Error>)
    ensures
        parsed == read_bytes(bytes@),
{
    serde_json::from_slice(bytes)
}

/// Calls `serde_json::from_str` for a `Value`. Trusted: the outcome, document
/// or error, depends on the text alone; [`read_text`] names it.
#[verifier::external_body]
pub(crate) fn parse_text(text: &str) -> (parsed: Result<Value, serde_json::Error>)
    ensures
        parsed == read_text(text@),
{
    serde_json::from_str(text)
}

/// Calls `Value::get` with a string key. Trusted: the member found is the one
/// named by [`member`].
#[verifier::external_body]
pub(crate) fn get_member<'a>(value: &'a Value, key: &str) -> (found: Option<&'a Value>)
    ensures
        match found {
            Some(inner) => member(*value, key@) == Some(*inner),
            None => member(*value, key@) is None,
        },
{
    value.get(key)
}

/// Calls `Value::as_array`. Trusted: the vector handed out holds the elements
/// named by [`elements`].
#[verifier::external_body]
pub(crate) fn get_elements<'a>(value: &'a Value) -> (found: Option<&'a Vec<Value>>)
    ensures
        match found {
            Some(items) => elements(*value) == Some(items@),
            None => elements(*value) is None,
        },
{
    value.as_array()
}

/// Calls `Value::as_str`. Trusted: the slice handed out is the text named by
/// [`string_of`].
#[verifier::external_body]
pub(crate) fn get_string<'a>(value: &'a Value) -> (found: Option<&'a str>)
    ensures
        match found {
            Some(text) => string_of(*value) == Some(text@),
            None => string_of(*value) is None,
        },
{
    value.as_str()
}

/// Calls `Value::clone`. Trusted: the copy equals the value it was made from.
#[verifier::external_body]
pub(crate) fn copy_of(value: &Value) -> (copy: Value)
    ensures
        copy == *value,
{
    value.clone()
}

/// The elements of the array stored under `key`, or nothing where `value` has
/// no such member or the member is not an array.
pub open spec fn listed_under(value: Value, key: Seq<char>) -> Seq<Value> {
    match member(value, key) {
        Some(inner) => match elements(inner) {
            Some(items) => items,
            None => Seq::empty(),
        },
        None => Seq::empty(),
    }
}

/// Appends a copy of every one of `items` to `into`, in order.
pub fn append_copies(items: &Vec<Value>, into: &mut Vec<Value>)
    ensures
        final(into)@ == old(into)@ + items@,
{
    let mut i: usize = 0;
    while i < items.len()
        invariant
            i <= items.len(),
            into@ == old(into)@ + items@.subrange(0, i as int),
        decreases items.len() - i,
    {
        into.push(copy_of(&items[i]));
        i = i + 1;
    }
    assert(items@.subrange(0, items.len() as int) == items@);
}

/// Appends to `into` a copy of every element of the array that `value` holds
/// under `key`, in order. A missing member, or one that is not an array,
/// appends nothing.
pub fn collect_listed(value: &Value, key: &str, into: &mut Vec<Value>)
    ensures
        final(into)@ == old(into)@ + listed_under(*value, key@),
{
    if let Some(inner) = get_member(value, key) {
        if let Some(items) = get_elements(inner) {
            append_copies(items, into);
        }
    }
}

} // verus!
