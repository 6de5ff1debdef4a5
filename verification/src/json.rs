//! The trusted boundary to the JSON library.
//!
//! A scene description arrives as JSON text; the document tree lives in
//! `serde_json`'s types, which are opaque here. The tree's abstract content
//! is given a name: `json_model` maps a library value to a `JsonNode`, a
//! ghost tree over plain values, and `doc_of` names what parsing given text
//! yields — both are functions of their arguments alone. Each wrapper makes
//! exactly one library call, converts the result to plain values, and
//! states what it returns in terms of those names; every decision about
//! what a document means is taken by verified code on what the wrappers
//! hand back.

use vstd::prelude::*;

verus! {

#[verifier::external_type_specification]
#[verifier::external_body]
pub struct ExValue(serde_json::Value);

#[verifier::external_type_specification]
#[verifier::external_body]
pub struct ExNumber(serde_json::Number);

/// The abstract content of one JSON document node, over plain values: a
/// number carries its decimal text, an object maps each key to the node
/// under it.
pub enum JsonNode {
    Null,
    Bool(bool),
    Number(Seq<u8>),
    String(Seq<char>),
    Array(Seq<JsonNode>),
    Object(Map<Seq<char>, JsonNode>),
}

/// The abstract content of a parsed JSON value.
pub uninterp spec fn json_model(v: serde_json::Value) -> JsonNode;

/// The decimal text of a parsed JSON number.
pub uninterp spec fn number_text(n: serde_json::Number) -> Seq<u8>;

/// What parsing given text yields: the document's content, or nothing when
/// the text is not valid JSON.
pub uninterp spec fn doc_of(s: Seq<char>) -> Option<JsonNode>;

/// Relies on serde_json::from_str: parses JSON text into a document tree,
/// or reports why it is not valid JSON; what it yields is a function of
/// the text alone.
#[verifier::external_body]
pub(crate) fn json_parse(s: &str) -> (r: Result<serde_json::Value, String>)
    ensures
        r matches Ok(v) ==> doc_of(s@) == Some(json_model(v)),
        r is Err <==> doc_of(s@) is None,
{
    serde_json::from_str::<serde_json::Value>(s).map_err(|e| e.to_string())
}

/// Relies on serde_json::Value::get: the value under a key, when this value
/// is an object that has it.
#[verifier::external_body]
pub(crate) fn json_get<'a>(v: &'a serde_json::Value, key: &str) -> (r: Option<
    &'a serde_json::Value,
>)
    ensures
        r matches Some(n) ==> json_model(*v) matches JsonNode::Object(m) && m.contains_key(key@)
            && json_model(*n) == m[key@],
        r is None <==> !(json_model(*v) matches JsonNode::Object(m) && m.contains_key(key@)),
{
    v.get(key)
}

/// Relies on serde_json::Value::as_str: the string content, when this value
/// is a string.
#[verifier::external_body]
pub(crate) fn json_as_str<'a>(v: &'a serde_json::Value) -> (r: Option<&'a str>)
    ensures
        r matches Some(s) ==> json_model(*v) == JsonNode::String(s@),
        r is None <==> !(json_model(*v) is String),
{
    v.as_str()
}

/// Relies on serde_json::Value::is_object.
#[verifier::external_body]
pub(crate) fn json_is_object(v: &serde_json::Value) -> (r: bool)
    ensures
        r == json_model(*v) is Object,
{
    v.is_object()
}

/// Relies on serde_json::Value::as_array: the element count, when this
/// value is an array.
#[verifier::external_body]
pub(crate) fn json_array_len(v: &serde_json::Value) -> (r: Option<usize>)
    ensures
        r matches Some(l) ==> json_model(*v) matches JsonNode::Array(a) && a.len() == l,
        r is None <==> !(json_model(*v) is Array),
{
    v.as_array().map(|a| a.len())
}

/// Relies on serde_json::Value::as_array: one element of an array, when
/// this value is an array and the index is inside it.
#[verifier::external_body]
pub(crate) fn json_array_get<'a>(v: &'a serde_json::Value, i: usize) -> (r: Option<
    &'a serde_json::Value,
>)
    ensures
        r matches Some(n) ==> json_model(*v) matches JsonNode::Array(a) && i < a.len()
            && json_model(*n) == a[i as int],
        r is None <==> !(json_model(*v) matches JsonNode::Array(a) && i < a.len()),
{
    v.as_array().and_then(|a| a.get(i))
}

/// Relies on serde_json::Value::as_number: the number, when this value is a
/// number.
#[verifier::external_body]
pub(crate) fn json_as_number<'a>(v: &'a serde_json::Value) -> (r: Option<&'a serde_json::Number>)
    ensures
        r matches Some(n) ==> json_model(*v) == JsonNode::Number(number_text(*n)),
        r is None <==> !(json_model(*v) is Number),
{
    v.as_number()
}

/// Relies on serde_json::Number's display form: the decimal text of the
/// number, as bytes.
#[verifier::external_body]
pub(crate) fn json_number_bytes(n: &serde_json::Number) -> (r: Vec<u8>)
    ensures
        r@ == number_text(*n),
{
    n.to_string().into_bytes()
}

} // verus!
