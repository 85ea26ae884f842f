//! JSON text as the wire carries it: what `serde_json` reads and writes, one
//! level of a document at a time. Nothing in this file is proved; each
//! function says in its contract which result of the outside crate it hands
//! on.

use vstd::prelude::*;

verus! {

/// `serde_json::Value`: a JSON document. What it holds is seen through
/// `document_shape` alone.
#[verifier::external_type_specification]
#[verifier::external_body]
pub struct ExDocument(serde_json::Value);

/// `serde_json::Error`: why a text was not read or a document not written.
/// Nothing is stated of what it holds.
#[verifier::external_type_specification]
#[verifier::external_body]
pub struct ExDocumentError(serde_json::Error);

/// The top level of a document: what kind of value it is, with its own
/// value or with the documents that it holds.
pub enum Shape {
    Null,
    Bool(bool),
    Number(i64),
    Text(String),
    Array(Vec<serde_json::Value>),
    /// The members of an object, each with its name.
    Object(Vec<(String, serde_json::Value)>),
}

/// The mathematical value of a `Shape`.
pub enum ShapeView {
    Null,
    Bool(bool),
    Number(int),
    Text(Seq<char>),
    Array(Seq<serde_json::Value>),
    Object(Seq<(Seq<char>, serde_json::Value)>),
}

impl View for Shape {
    type V = ShapeView;

    open spec fn view(&self) -> ShapeView {
        match self {
            Shape::Null => ShapeView::Null,
            Shape::Bool(b) => ShapeView::Bool(*b),
            Shape::Number(i) => ShapeView::Number(*i as int),
            Shape::Text(s) => ShapeView::Text(s@),
            Shape::Array(items) => ShapeView::Array(items@),
            Shape::Object(members) => ShapeView::Object(
                Seq::new(members@.len(), |i: int| (members@[i].0@, members@[i].1)),
            ),
        }
    }
}

/// The document that `serde_json::from_str` reads from `text`; `None` where
/// it fails.
pub uninterp spec fn parsed_document(text: Seq<char>) -> Option<serde_json::Value>;

/// The top level of a document, an object with its members in the order in
/// which the document keeps them. `None` where the document is a number that
/// is no `i64`.
pub uninterp spec fn document_shape(document: serde_json::Value) -> Option<ShapeView>;

/// The document with the top level `shape`, an object with the members added
/// in order.
pub uninterp spec fn shaped_document(shape: ShapeView) -> serde_json::Value;

/// The text that `serde_json::to_string` writes for a document.
pub uninterp spec fn printed_document(document: serde_json::Value) -> Seq<char>;

/// `serde_json::from_str::<serde_json::Value>`.
#[verifier::external_body]
pub(crate) fn parse_document(text: &str) -> (r: Result<serde_json::Value, serde_json::Error>)
    ensures
        r is Ok <==> parsed_document(text@) is Some,
        r matches Ok(document) ==> parsed_document(text@) == Some(document),
{
    serde_json::from_str::<serde_json::Value>(text)
}

/// The top level of a `serde_json::Value`, variant for variant, with copies
/// of the documents that it holds. A number goes through
/// `serde_json::Number::as_i64`, and where that gives `None`, so does this.
#[verifier::external_body]
pub(crate) fn shape_of(document: &serde_json::Value) -> (r: Option<Shape>)
    ensures
        r is Some <==> document_shape(*document) is Some,
        r matches Some(shape) ==> document_shape(*document) == Some(shape@),
{
    match document {
        serde_json::Value::Null => Some(Shape::Null),
        serde_json::Value::Bool(b) => Some(Shape::Bool(*b)),
        serde_json::Value::Number(n) => n.as_i64().map(Shape::Number),
        serde_json::Value::String(s) => Some(Shape::Text(s.clone())),
        serde_json::Value::Array(a) => Some(Shape::Array(a.clone())),
        serde_json::Value::Object(m) => Some(Shape::Object(m.iter().map(|(k, v)| (k.clone(), v.clone())).collect())),
    }
}

/// The `serde_json::Value` with the top level `shape`, variant for variant:
/// a number through `serde_json::Value::from`, an object through the
/// `FromIterator` of `serde_json::Map`.
#[verifier::external_body]
pub(crate) fn document_with(shape: Shape) -> (r: serde_json::Value)
    ensures
        r == shaped_document(shape@),
{
    match shape {
        Shape::Null => serde_json::Value::Null,
        Shape::Bool(b) => serde_json::Value::Bool(b),
        Shape::Number(i) => serde_json::Value::from(i),
        Shape::Text(s) => serde_json::Value::String(s),
        Shape::Array(items) => serde_json::Value::Array(items),
        Shape::Object(members) => serde_json::Value::Object(members.into_iter().collect()),
    }
}

/// `serde_json::to_string` on a `serde_json::Value`. It always succeeds: the
/// text goes into a vector of bytes, which takes every write, and the
/// members of an object have texts for their names, so that none of the
/// errors that `to_string` names can come from a `serde_json::Value`.
#[verifier::external_body]
pub(crate) fn print_document(document: &serde_json::Value) -> (r: Result<String, serde_json::Error>)
    ensures
        r is Ok,
        r matches Ok(text) ==> text@ == printed_document(*document),
{
    serde_json::to_string(document)
}

} // verus!
