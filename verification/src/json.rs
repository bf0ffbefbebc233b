//! Access to a parsed JSON document. The document tree is serde_json's; each
//! accessor the decoder needs is wrapped one by one, and everything built on
//! top of them is verified. Every wrapped call is a function of its argument
//! alone, so each result is named and the wrapper's contract ties the call
//! to its name; the decoding contracts are stated over the names.

use vstd::prelude::*;

verus! {

#[verifier::external_type_specification]
#[verifier::external_body]
pub struct ExValue(serde_json::Value);

#[verifier::external_type_specification]
#[verifier::external_body]
pub struct ExNumber(serde_json::Number);

/// The JSON document the bytes parse to, `None` when they are not a
/// well-formed JSON document.
pub uninterp spec fn json_doc_of(b: Seq<u8>) -> Option<serde_json::Value>;

/// The value under `key` when the node is an object holding that key.
pub uninterp spec fn json_field_of(v: serde_json::Value, key: Seq<char>) -> Option<
    serde_json::Value,
>;

/// The text of a string node, `None` for any other node.
pub uninterp spec fn json_str_of(v: serde_json::Value) -> Option<Seq<char>>;

/// The value of a number node that is a nonnegative integer fitting in 64
/// bits, `None` otherwise.
pub uninterp spec fn json_u64_of(v: serde_json::Value) -> Option<u64>;

/// The elements of an array node, `None` for any other node.
pub uninterp spec fn json_items_of(v: serde_json::Value) -> Option<Seq<serde_json::Value>>;

/// The number payload of a number node, `None` for any other node.
pub uninterp spec fn json_number_of(v: serde_json::Value) -> Option<serde_json::Number>;

/// The text a number prints as in JSON syntax.
pub uninterp spec fn number_text_of(n: serde_json::Number) -> Seq<char>;

/// Relies on serde_json::from_slice: parses a JSON document from bytes,
/// deterministically in the bytes alone.
#[verifier::external_body]
pub(crate) fn json_parse(body: &[u8]) -> (r: Option<serde_json::Value>)
    ensures
        r == json_doc_of(body@),
{
    serde_json::from_slice(body).ok()
}

/// Relies on serde_json::Value::get: the value under `key` when the node is
/// an object holding that key, `None` otherwise.
#[verifier::external_body]
pub(crate) fn json_get<'a>(v: &'a serde_json::Value, key: &str) -> (r: Option<
    &'a serde_json::Value,
>)
    ensures
        r is Some <==> json_field_of(*v, key@) is Some,
        r matches Some(f) ==> *f == json_field_of(*v, key@).unwrap(),
{
    v.get(key)
}

/// Relies on serde_json::Value::as_str: the payload of a string node,
/// `None` for any other node.
#[verifier::external_body]
pub(crate) fn json_str(v: &serde_json::Value) -> (r: Option<String>)
    ensures
        r is Some <==> json_str_of(*v) is Some,
        r matches Some(s) ==> s@ == json_str_of(*v).unwrap(),
{
    v.as_str().map(|s| s.to_owned())
}

/// Relies on serde_json::Value::as_u64: the value of a number node that is
/// a nonnegative integer fitting in 64 bits, `None` otherwise.
#[verifier::external_body]
pub(crate) fn json_u64(v: &serde_json::Value) -> (r: Option<u64>)
    ensures
        r == json_u64_of(*v),
{
    v.as_u64()
}

/// Relies on serde_json::Value::as_array: the elements of an array node,
/// `None` for any other node.
#[verifier::external_body]
pub(crate) fn json_array<'a>(v: &'a serde_json::Value) -> (r: Option<&'a Vec<serde_json::Value>>)
    ensures
        r is Some <==> json_items_of(*v) is Some,
        r matches Some(a) ==> a@ == json_items_of(*v).unwrap(),
{
    v.as_array()
}

/// Relies on serde_json::Value::as_number: the payload of a number node,
/// `None` for any other node.
#[verifier::external_body]
pub(crate) fn json_number<'a>(v: &'a serde_json::Value) -> (r: Option<&'a serde_json::Number>)
    ensures
        r is Some <==> json_number_of(*v) is Some,
        r matches Some(n) ==> *n == json_number_of(*v).unwrap(),
{
    v.as_number()
}

/// Relies on serde_json::Number's Display impl: the numeric value written in
/// JSON syntax (integers exactly, floats in shortest round-trip form),
/// deterministically in the number's value alone.
#[verifier::external_body]
pub(crate) fn number_text(n: &serde_json::Number) -> (r: String)
    ensures
        r@ == number_text_of(*n),
{
    n.to_string()
}

} // verus!
