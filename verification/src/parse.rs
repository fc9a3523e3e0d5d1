//! Reading JSON text into a [`Json`] document.
//!
//! The text is read by `serde_json`; what it hands back is taken apart node
//! by node and rebuilt as a [`Json`] tree by verified code.

use vstd::prelude::*;
use crate::error::DecodeError;
use crate::json::{Json, JsonView};

verus! {

/// `serde_json::Value`, the tree that `serde_json` reads a text into. Nothing
/// of its inside is visible here.
#[verifier::external_type_specification]
#[verifier::external_body]
pub struct ExValue(serde_json::Value);

/// `serde_json::Error`, carried from the reader to the place that maps it.
#[verifier::external_type_specification]
#[verifier::external_body]
pub struct ExError(serde_json::Error);

/// The document that a `serde_json::Value` holds.
pub uninterp spec fn value_document(value: serde_json::Value) -> JsonView;

/// The document that `serde_json` reads from `text`, or `None` where it
/// rejects the text.
pub uninterp spec fn text_document(text: Seq<u8>) -> Option<JsonView>;

/// One node of a `serde_json::Value`, with its children still unread.
enum Node<'a> {
    Null,
    Bool(bool),
    Number(String),
    Str(&'a String),
    Array(&'a Vec<serde_json::Value>),
    Object(Vec<(&'a String, &'a serde_json::Value)>),
}

/// Whether `node` is the top of `doc`, its children standing for the
/// children of `doc` one by one.
spec fn node_shows(node: Node<'_>, doc: JsonView) -> bool {
    match node {
        Node::Null => doc == JsonView::Null,
        Node::Bool(b) => doc == JsonView::Bool(b),
        Node::Number(text) => doc == JsonView::Number(text@),
        Node::Str(text) => doc == JsonView::Str(text@),
        Node::Array(items) => {
            &&& doc is Array
            &&& doc->Array_0.len() == items@.len()
            &&& forall|i: int|
                0 <= i < items@.len() ==> value_document(#[trigger] items@[i]) == doc->Array_0[i]
        },
        Node::Object(members) => {
            &&& doc is Object
            &&& doc->Object_0.len() == members@.len()
            &&& forall|i: int|
                0 <= i < members@.len() ==> (#[trigger] members@[i]).0@ == doc->Object_0[i].0
                    && value_document(*members@[i].1) == doc->Object_0[i].1
        },
    }
}

/// Calls `serde_json::from_slice` for a `serde_json::Value`. The outcome
/// depends on the bytes alone: `text_document` names it, and on success the
/// value holds that document.
#[verifier::external_body]
fn read_value(text: &[u8]) -> (outcome: Result<serde_json::Value, serde_json::Error>)
    ensures
        match outcome {
            Ok(value) => text_document(text@) == Some(value_document(value)),
            Err(_) => text_document(text@) is None,
        },
{
    serde_json::from_slice::<serde_json::Value>(text)
}

/// Tells the six variants of `serde_json::Value` apart and hands out what the
/// variant holds: a number as the text that its `Display` writes, an array's
/// items and an object's entries (from `serde_json::Map::iter`) by reference.
#[verifier::external_body]
fn open_value<'a>(value: &'a serde_json::Value) -> (node: Node<'a>)
    ensures
        node_shows(node, value_document(*value)),
{
    match value {
        serde_json::Value::Null => Node::Null,
        serde_json::Value::Bool(b) => Node::Bool(*b),
        serde_json::Value::Number(number) => Node::Number(number.to_string()),
        serde_json::Value::String(text) => Node::Str(text),
        serde_json::Value::Array(items) => Node::Array(items),
        serde_json::Value::Object(members) => Node::Object(members.iter().collect()),
    }
}

/// Rebuilds the document that `value` holds as a [`Json`] tree.
fn lift(value: &serde_json::Value) -> (doc: Json)
    ensures
        doc@ == value_document(*value),
    decreases value_document(*value),
{
    let ghost whole = value_document(*value);
    match open_value(value) {
        Node::Null => Json::Null,
        Node::Bool(b) => Json::Bool(b),
        Node::Number(text) => Json::Number(text),
        Node::Str(text) => Json::Str(text.clone()),
        Node::Array(items) => {
            let mut out: Vec<Json> = Vec::new();
            let mut i: usize = 0;
            while i < items.len()
                invariant
                    i <= items@.len(),
                    out@.len() == i,
                    whole is Array,
                    whole == value_document(*value),
                    whole->Array_0.len() == items@.len(),
                    forall|k: int|
                        0 <= k < items@.len() ==> value_document(#[trigger] items@[k])
                            == whole->Array_0[k],
                    forall|k: int| 0 <= k < i ==> (#[trigger] out@[k])@ == whole->Array_0[k],
                decreases items@.len() - i,
            {
                let child = lift(&items[i]);
                out.push(child);
                i = i + 1;
            }
            let doc = Json::Array(out);
            assert(doc@->Array_0 =~= whole->Array_0);
            doc
        },
        Node::Object(members) => {
            let mut out: Vec<(String, Json)> = Vec::new();
            let mut i: usize = 0;
            while i < members.len()
                invariant
                    i <= members@.len(),
                    out@.len() == i,
                    whole is Object,
                    whole == value_document(*value),
                    whole->Object_0.len() == members@.len(),
                    forall|k: int|
                        0 <= k < members@.len() ==> (#[trigger] members@[k]).0@
                            == whole->Object_0[k].0 && value_document(*members@[k].1)
                            == whole->Object_0[k].1,
                    forall|k: int|
                        0 <= k < i ==> (#[trigger] out@[k]).0@ == whole->Object_0[k].0
                            && out@[k].1@ == whole->Object_0[k].1,
                decreases members@.len() - i,
            {
                let name = members[i].0.clone();
                let child = lift(members[i].1);
                out.push((name, child));
                i = i + 1;
            }
            let doc = Json::Object(out);
            assert(doc@->Object_0 =~= whole->Object_0);
            doc
        },
    }
}

impl Json {
    /// Reads a JSON text.
    ///
    /// Succeeds exactly on the texts that `serde_json` reads as a value, with
    /// the document it read; every other text is [`DecodeError::InvalidJson`].
    pub fn parse(text: &[u8]) -> (outcome: Result<Json, DecodeError>)
        ensures
            match outcome {
                Ok(doc) => text_document(text@) == Some(doc@),
                Err(e) => text_document(text@) is None && e == DecodeError::InvalidJson,
            },
    {
        match read_value(text) {
            Ok(value) => Ok(lift(&value)),
            Err(_) => Err(DecodeError::InvalidJson),
        }
    }
}

} // verus!
