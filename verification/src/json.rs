//! Reading JSON documents. The documents are `serde_json` values; this module
//! names what that crate's accessors return and offers the few verified
//! lookups the rest of the library is written with.

use vstd::prelude::*;
use serde_json::Value;

verus! {

/// A JSON document of `serde_json`, opaque to the verifier.
#[verifier::external_type_specification]
#[verifier::external_body]
pub struct ExValue(serde_json::Value);

/// The document that `serde_json::from_str` reads from a text, if the text is JSON.
pub uninterp spec fn json_document(text: Seq<char>) -> Option<Value>;

/// The document that `serde_json::from_slice` reads from bytes, if they are JSON.
pub uninterp spec fn json_document_of_bytes(bytes: Seq<u8>) -> Option<Value>;

/// The member that `Value::get` finds under a key: present only in an object
/// that holds the key.
pub uninterp spec fn json_member(v: Value, key: Seq<char>) -> Option<Value>;

/// The text that `Value::as_str` gives: present only for a JSON string.
pub uninterp spec fn json_text(v: Value) -> Option<Seq<char>>;

/// The flag that `Value::as_bool` gives: present only for a JSON boolean.
pub uninterp spec fn json_flag(v: Value) -> Option<bool>;

/// The elements that `Value::as_array` gives: present only for a JSON array.
pub uninterp spec fn json_elements(v: Value) -> Option<Seq<Value>>;

/// The value behind an optional reference.
pub open spec fn borrowed<T>(r: Option<&T>) -> Option<T> {
    match r {
        Some(x) => Some(*x),
        None => None,
    }
}

/// The view of an optional borrowed text.
pub open spec fn borrowed_text(r: Option<&str>) -> Option<Seq<char>> {
    match r {
        Some(x) => Some(x@),
        None => None,
    }
}

/// The view of an optional borrowed list.
pub open spec fn borrowed_list(r: Option<&Vec<Value>>) -> Option<Seq<Value>> {
    match r {
        Some(x) => Some(x@),
        None => None,
    }
}

/// Calls `serde_json::from_str` for a `Value`. The contract only names the
/// outcome: the same text always reads as the same document.
#[verifier::external_body]
pub(crate) fn parse_document(text: &str) -> (r: Option<Value>)
    ensures
        r == json_document(text@),
{
    serde_json::from_str::<Value>(text).ok()
}

/// Calls `serde_json::from_slice` for a `Value`. The contract only names the
/// outcome: the same bytes always read as the same document.
#[verifier::external_body]
pub(crate) fn parse_document_bytes(bytes: &[u8]) -> (r: Option<Value>)
    ensures
        r == json_document_of_bytes(bytes@),
{
    serde_json::from_slice::<Value>(bytes).ok()
}

/// Calls `Value::get` with a string key. The contract names the member found.
#[verifier::external_body]
pub(crate) fn member<'a>(v: &'a Value, key: &str) -> (r: Option<&'a Value>)
    ensures
        borrowed(r) == json_member(*v, key@),
{
    v.get(key)
}

/// Calls `Value::as_str`. The contract names the text found.
#[verifier::external_body]
pub(crate) fn as_text<'a>(v: &'a Value) -> (r: Option<&'a str>)
    ensures
        borrowed_text(r) == json_text(*v),
{
    v.as_str()
}

/// Calls `Value::as_bool`. The contract names the flag found.
#[verifier::external_body]
pub(crate) fn as_flag(v: &Value) -> (r: Option<bool>)
    ensures
        r == json_flag(*v),
{
    v.as_bool()
}

/// Calls `Value::as_array`. The contract names the elements found.
#[verifier::external_body]
pub(crate) fn as_elements<'a>(v: &'a Value) -> (r: Option<&'a Vec<Value>>)
    ensures
        borrowed_list(r) == json_elements(*v),
{
    v.as_array()
}

/// Calls `Value::clone`: the copy is the same document.
#[verifier::external_body]
pub(crate) fn duplicate(v: &Value) -> (r: Value)
    ensures
        r == *v,
{
    v.clone()
}

/// The member of a member, if both are there.
pub open spec fn json_member2(v: Value, outer: Seq<char>, inner: Seq<char>) -> Option<Value> {
    match json_member(v, outer) {
        Some(m) => json_member(m, inner),
        None => None,
    }
}

/// The text under a key, if the member is there and is a string.
pub open spec fn json_text_at(v: Value, key: Seq<char>) -> Option<Seq<char>> {
    match json_member(v, key) {
        Some(m) => json_text(m),
        None => None,
    }
}

/// The text under a key of a member, if all are there and the last is a string.
pub open spec fn json_text_at2(v: Value, outer: Seq<char>, inner: Seq<char>) -> Option<Seq<char>> {
    match json_member(v, outer) {
        Some(m) => json_text_at(m, inner),
        None => None,
    }
}

/// The flag under a key, if the member is there and is a boolean.
pub open spec fn json_flag_at(v: Value, key: Seq<char>) -> Option<bool> {
    match json_member(v, key) {
        Some(m) => json_flag(m),
        None => None,
    }
}

/// The text under `key` in `v`.
pub fn text_at(v: &Value, key: &str) -> (r: Option<String>)
    ensures
        r.deep_view() == json_text_at(*v, key@),
{
    match member(v, key) {
        Some(m) => match as_text(m) {
            Some(t) => Some(t.to_string()),
            None => None,
        },
        None => None,
    }
}

/// The text under `inner` in the member `outer` of `v`.
pub fn text_at2(v: &Value, outer: &str, inner: &str) -> (r: Option<String>)
    ensures
        r.deep_view() == json_text_at2(*v, outer@, inner@),
{
    match member(v, outer) {
        Some(m) => text_at(m, inner),
        None => None,
    }
}

/// The flag under `key` in `v`.
pub fn flag_at(v: &Value, key: &str) -> (r: Option<bool>)
    ensures
        r == json_flag_at(*v, key@),
{
    match member(v, key) {
        Some(m) => as_flag(m),
        None => None,
    }
}

/// A copy of the member under `inner` in the member `outer` of `v`.
pub fn member2(v: &Value, outer: &str, inner: &str) -> (r: Option<Value>)
    ensures
        r == json_member2(*v, outer@, inner@),
{
    match member(v, outer) {
        Some(m) => match member(m, inner) {
            Some(x) => Some(duplicate(x)),
            None => None,
        },
        None => None,
    }
}

} // verus!
