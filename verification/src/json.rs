//! JSON documents, as `serde_json` holds them, and the model the contracts use.
//!
//! `serde_json` is built with `preserve_order`: an object keeps its members in
//! the order in which they were inserted, and the contracts here rely on it.

use serde_json::Value;
use vstd::prelude::*;

verus! {

/// `serde_json::Value`: nothing inside it is visible to the verifier.
#[verifier::external_type_specification]
#[verifier::external_body]
pub struct ExValue(serde_json::Value);

/// `serde_json::Error`: carried to the caller, never read.
#[verifier::external_type_specification]
#[verifier::external_body]
pub struct ExJsonError(serde_json::Error);

/// The mathematical model of a JSON document. The members of a record keep
/// the order in which they were inserted.
pub enum JsonDoc {
    Null,
    Bool(bool),
    /// A number, by its literal text.
    Number(Seq<char>),
    Text(Seq<char>),
    List(Seq<JsonDoc>),
    Record(Seq<(Seq<char>, JsonDoc)>),
}

/// The document that a `serde_json::Value` holds.
pub uninterp spec fn value_doc(value: Value) -> JsonDoc;

/// The text that `serde_json::to_string` writes for a document.
pub uninterp spec fn compact_text(doc: JsonDoc) -> Seq<char>;

/// The text that `serde_json::to_string_pretty` writes for a document.
pub uninterp spec fn pretty_text(doc: JsonDoc) -> Seq<char>;

/// The document that `serde_json::from_str` reads from a text, if the text is
/// a JSON document.
pub uninterp spec fn parsed_text(text: Seq<char>) -> Option<JsonDoc>;

/// Why a report was not written, or not read.
#[derive(Debug)]
pub enum SerializationError {
    /// `serde_json` failed. It does on a text that it reads no document from;
    /// in writing a report it does not.
    Json(serde_json::Error),
    /// The text holds a JSON document, but not the document of a report.
    NotAReport,
}

/// No two members of a record share a key.
pub open spec fn distinct_keys<V>(members: Seq<(Seq<char>, V)>) -> bool {
    forall|i: int, j: int|
        0 <= i < j < members.len() ==> (#[trigger] members[i]).0 != (#[trigger] members[j]).0
}

/// One level of a JSON value: its kind, and the values directly below it.
pub enum JsonParts {
    Null,
    Bool(bool),
    /// A number, kept whole.
    Number(Value),
    Text(String),
    List(Vec<Value>),
    Record(Vec<(String, Value)>),
}

impl View for JsonParts {
    type V = JsonDoc;

    open spec fn view(&self) -> JsonDoc {
        match self {
            JsonParts::Null => JsonDoc::Null,
            JsonParts::Bool(b) => JsonDoc::Bool(*b),
            JsonParts::Number(value) => value_doc(*value),
            JsonParts::Text(text) => JsonDoc::Text(text@),
            JsonParts::List(items) => JsonDoc::List(items@.map_values(|v: Value| value_doc(v))),
            JsonParts::Record(members) => JsonDoc::Record(
                members@.map_values(|m: (String, Value)| (m.0@, value_doc(m.1))),
            ),
        }
    }
}

impl JsonParts {
    /// The members of a record, in order; empty for any other kind.
    pub open spec fn members(self) -> Seq<(Seq<char>, JsonDoc)> {
        match self@ {
            JsonDoc::Record(members) => members,
            _ => Seq::empty(),
        }
    }
}

/// Tells the variants of `serde_json::Value` apart and copies out what the
/// variant holds, one level deep; the members of an object are taken from
/// `serde_json::Map::iter`. The parts hold the same document as the value. A
/// number stays whole inside `Number`, and only a number does. The members of
/// an object come in the object's own order, and no two of them share a key.
#[verifier::external_body]
pub(crate) fn open_value(value: &Value) -> (parts: JsonParts)
    ensures
        parts@ == value_doc(*value),
        parts is Number <==> value_doc(*value) is Number,
        distinct_keys(parts.members()),
{
    match value {
        Value::Null => JsonParts::Null,
        Value::Bool(b) => JsonParts::Bool(*b),
        Value::Number(_) => JsonParts::Number(value.clone()),
        Value::String(text) => JsonParts::Text(text.clone()),
        Value::Array(items) => JsonParts::List(items.clone()),
        Value::Object(map) => JsonParts::Record(
            map.iter().map(|(key, member)| (key.clone(), member.clone())).collect(),
        ),
    }
}

/// Builds a `serde_json::Value` from its parts, by the variant that belongs
/// to each kind; the members of a record are collected into a
/// `serde_json::Map`. The members must have distinct keys: the map then holds
/// them all, in their order, and the value holds the document of the parts.
#[verifier::external_body]
pub(crate) fn close_value(parts: JsonParts) -> (value: Value)
    requires
        distinct_keys(parts.members()),
    ensures
        value_doc(value) == parts@,
{
    match parts {
        JsonParts::Null => Value::Null,
        JsonParts::Bool(b) => Value::Bool(b),
        JsonParts::Number(number) => number,
        JsonParts::Text(text) => Value::String(text),
        JsonParts::List(items) => Value::Array(items),
        JsonParts::Record(members) => Value::Object(members.into_iter().collect()),
    }
}

/// `Clone::clone` of a `serde_json::Value`: the copy holds the same document.
#[verifier::external_body]
pub(crate) fn clone_value(value: &Value) -> (copy: Value)
    ensures
        value_doc(copy) == value_doc(*value),
{
    value.clone()
}

/// `serde_json::to_string` on a value. It succeeds, and the text is the
/// compact text of the value's document. It can fail only where a `Serialize`
/// impl fails, a map has a key that is no string, or the writer fails: a
/// `serde_json::Value` writes itself without a failure of its own, the keys
/// of its objects are strings, and the writer is a `Vec<u8>`.
#[verifier::external_body]
pub(crate) fn write_compact(value: &Value) -> (r: Result<String, serde_json::Error>)
    ensures
        r is Ok,
        r matches Ok(text) ==> text@ == compact_text(value_doc(*value)),
{
    serde_json::to_string(value)
}

/// `serde_json::to_string_pretty` on a value. It succeeds, for the reasons
/// given at `write_compact`, and the text is the indented text of the value's
/// document.
#[verifier::external_body]
pub(crate) fn write_pretty(value: &Value) -> (r: Result<String, serde_json::Error>)
    ensures
        r is Ok,
        r matches Ok(text) ==> text@ == pretty_text(value_doc(*value)),
{
    serde_json::to_string_pretty(value)
}

/// `serde_json::from_str` for a value: it yields the document that it reads
/// from the text, and fails on a text from which it reads none.
#[verifier::external_body]
pub(crate) fn read_value(text: &str) -> (r: Result<Value, serde_json::Error>)
    ensures
        match r {
            Ok(value) => parsed_text(text@) == Some(value_doc(value)),
            Err(_) => parsed_text(text@) is None,
        },
{
    serde_json::from_str(text)
}

} // verus!
