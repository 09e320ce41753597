//! The text codec's schema-free mode: reading a payload as an untyped
//! document, writing a document back, and the pass that cuts an evolved
//! payload down to the base schema on the way.

use vstd::prelude::*;
use crate::document::{filtered, Document, FilterError, Member, Tree};

verus! {

/// A value of the text codec, carried as it is.
#[verifier::external_type_specification]
#[verifier::external_body]
pub struct ExValue(serde_json::Value);

/// What a value of the text codec holds; the members of an object stand in
/// the order in which the codec walks them.
pub uninterp spec fn value_tree(value: serde_json::Value) -> Tree;

/// What the text codec reads from `text`, or nothing where `text` is not
/// one well-formed document.
pub uninterp spec fn parsed_json(text: Seq<char>) -> Option<Tree>;

/// What the text codec keeps of a document when it stores it as a value of
/// its own.
pub uninterp spec fn stored(tree: Tree) -> Tree;

/// The text that the codec writes for a value that holds `tree`.
pub uninterp spec fn rendered_json(tree: Tree) -> Seq<char>;

/// Why an evolved payload could not be cut down to the base schema.
#[derive(Clone, Copy, Debug, PartialEq, Eq, Structural)]
pub enum JsonFilterError {
    /// The payload is not one well-formed document.
    Malformed,
    /// The document has not the shape of a record.
    Shape(FilterError),
}

/// Reads `text` with `serde_json::from_str` as a `serde_json::Value`.
/// Trusted: what comes back depends on the text alone; it is the value
/// that holds `parsed_json(text)`, and nothing exactly where the codec
/// reports an error.
#[verifier::external_body]
pub(crate) fn parse_value(text: &str) -> (value: Option<serde_json::Value>)
    ensures
        match value {
            Some(v) => parsed_json(text@) == Some(value_tree(v)),
            None => parsed_json(text@).is_none(),
        },
{
    serde_json::from_str::<serde_json::Value>(text).ok()
}

/// Turns a `serde_json::Value` into a document, variant by variant, the
/// members of an object in the order of `serde_json::Map::iter`. Trusted:
/// the document holds what the value holds.
#[verifier::external_body]
pub(crate) fn document_of(value: &serde_json::Value) -> (document: Document)
    ensures
        document.tree() == value_tree(*value),
{
    match value {
        serde_json::Value::Null => Document::Null,
        serde_json::Value::Bool(b) => Document::Bool(*b),
        serde_json::Value::Number(n) => Document::Number(n.clone()),
        serde_json::Value::String(s) => Document::Text(s.clone()),
        serde_json::Value::Array(items) => Document::Array(items.iter().map(document_of).collect()),
        serde_json::Value::Object(map) => Document::Object(
            map.iter().map(|(k, v)| Member { key: k.clone(), value: document_of(v) }).collect(),
        ),
    }
}

/// Turns a document into a `serde_json::Value`, variant by variant; the
/// members of an object are collected into a `serde_json::Map`. Trusted:
/// the value holds `stored` of what the document holds.
#[verifier::external_body]
pub(crate) fn value_of(document: &Document) -> (value: serde_json::Value)
    ensures
        value_tree(value) == stored(document.tree()),
{
    match document {
        Document::Null => serde_json::Value::Null,
        Document::Bool(b) => serde_json::Value::Bool(*b),
        Document::Number(n) => serde_json::Value::Number(n.clone()),
        Document::Text(s) => serde_json::Value::String(s.clone()),
        Document::Array(items) => serde_json::Value::Array(items.iter().map(value_of).collect()),
        Document::Object(members) => serde_json::Value::Object(
            members.iter().map(|m| (m.key.clone(), value_of(&m.value))).collect(),
        ),
    }
}

/// Writes a value with `serde_json::to_string`. Trusted: the text depends
/// on what the value holds alone and is the one named
/// `rendered_json`; writing a `serde_json::Value` does not fail.
#[verifier::external_body]
pub(crate) fn render_value(value: &serde_json::Value) -> (text: String)
    ensures
        text@ == rendered_json(value_tree(*value)),
{
    serde_json::to_string(value).unwrap()
}

/// Reads a payload as an untyped document; nothing where the payload is
/// not one well-formed document.
pub fn parse_document(text: &str) -> (document: Option<Document>)
    ensures
        match document {
            Some(d) => parsed_json(text@) == Some(d.tree()),
            None => parsed_json(text@).is_none(),
        },
{
    match parse_value(text) {
        Some(value) => Some(document_of(&value)),
        None => None,
    }
}

/// Writes a document as a payload.
pub fn render_document(document: &Document) -> (text: String)
    ensures
        text@ == rendered_json(stored(document.tree())),
{
    let value = value_of(document);
    render_value(&value)
}

/// What `filter_document` returns for a payload that was read as
/// `parsed`.
pub open spec fn filter_outcome(parsed: Option<Tree>) -> Result<Seq<char>, JsonFilterError> {
    match parsed {
        None => Err(JsonFilterError::Malformed),
        Some(tree) => match filtered(tree) {
            Err(error) => Err(JsonFilterError::Shape(error)),
            Ok(kept) => Ok(rendered_json(stored(kept))),
        },
    }
}

/// What an optional document holds.
pub open spec fn tree_of(parsed: Option<Document>) -> Option<Tree> {
    match parsed {
        Some(document) => Some(document.tree()),
        None => None,
    }
}

/// Cuts a document down to the base schema and writes the result, or says
/// why it cannot; `parsed` is what reading a payload gave.
pub fn filter_document(parsed: Option<Document>) -> (outcome: Result<String, JsonFilterError>)
    ensures
        match outcome {
            Ok(text) => filter_outcome(tree_of(parsed)) == Ok::<Seq<char>, JsonFilterError>(text@),
            Err(error) => filter_outcome(tree_of(parsed)) == Err::<Seq<char>, JsonFilterError>(
                error,
            ),
        },
{
    match parsed {
        None => Err(JsonFilterError::Malformed),
        Some(document) => match document.filter_to_base() {
            Err(error) => Err(JsonFilterError::Shape(error)),
            Ok(kept) => Ok(render_document(&kept)),
        },
    }
}

/// Reads an evolved payload as a reader that knows only the base schema
/// would: the payload is read without a schema, cut down to the base
/// schema and written again.
pub fn filter_json(text: &str) -> (outcome: Result<String, JsonFilterError>)
    ensures
        match outcome {
            Ok(kept) => filter_outcome(parsed_json(text@)) == Ok::<Seq<char>, JsonFilterError>(
                kept@,
            ),
            Err(error) => filter_outcome(parsed_json(text@)) == Err::<Seq<char>, JsonFilterError>(
                error,
            ),
        },
{
    filter_document(parse_document(text))
}

} // verus!
