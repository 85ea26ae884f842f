//! The envelopes in which requests and responses travel, as trees and as text.

use crate::directory::position;
use crate::error::{reply, ServiceError};
use crate::document::{document_of, document_tree, tree_document, tree_of, DEPTH};
use crate::json::{parse_document, parsed_document, print_document, printed_document};
use crate::value::{lemma_record_view, Tree, TreeView};
use vstd::prelude::*;

verus! {

/// A request: the name of an operation and its encoded arguments.
#[derive(Debug, PartialEq, Eq)]
pub struct RequestEnvelope {
    pub name: String,
    pub params: Tree,
}

/// A response: the encoded result of a call, or the error it ended in.
#[derive(Debug, PartialEq, Eq)]
pub struct ResponseEnvelope {
    pub result: Result<Tree, ServiceError>,
}

/// The tree of a request: a record of `name` and `params`.
pub open spec fn request_tree(name: Seq<char>, params: TreeView) -> TreeView {
    TreeView::Record(seq![("name"@, TreeView::Text(name)), ("params"@, params)])
}

/// The request that a tree holds: its field `name` is a text, and it has a
/// field `params`.
pub open spec fn request_of(tree: TreeView) -> Option<(Seq<char>, TreeView)> {
    match (tree.field("name"@), tree.field("params"@)) {
        (Some(TreeView::Text(name)), Some(params)) => Some((name, params)),
        _ => None,
    }
}

/// The tree of a response: a record whose one field `result` holds a record
/// of one field, `Ok` with the result or `Err` with the description.
pub open spec fn response_tree(result: Result<TreeView, Seq<char>>) -> TreeView {
    TreeView::Record(
        seq![(
            "result"@,
            match result {
                Ok(value) => TreeView::Record(seq![("Ok"@, value)]),
                Err(description) => TreeView::Record(seq![("Err"@, TreeView::Text(description))]),
            },
        )],
    )
}

/// The response that a tree holds: its field `result` is a record of one
/// field, which is called `Ok`, or is called `Err` and holds a text.
pub open spec fn response_of(tree: TreeView) -> Option<Result<TreeView, Seq<char>>> {
    match tree.field("result"@) {
        Some(TreeView::Record(fields)) => if fields.len() != 1 {
            None
        } else if fields[0].0 == "Ok"@ {
            Some(Ok(fields[0].1))
        } else if fields[0].0 == "Err"@ {
            match fields[0].1 {
                TreeView::Text(description) => Some(Err(description)),
                _ => None,
            }
        } else {
            None
        },
        _ => None,
    }
}

/// The tree that the JSON text `text` holds.
pub open spec fn tree_in(text: Seq<char>) -> Option<TreeView> {
    match parsed_document(text) {
        Some(document) => document_tree(document),
        None => None,
    }
}

/// The JSON text of a tree.
pub open spec fn text_of(tree: TreeView) -> Seq<char> {
    printed_document(tree_document(tree))
}

/// The request that the JSON text `text` holds.
pub open spec fn request_in(text: Seq<char>) -> Option<(Seq<char>, TreeView)> {
    match tree_in(text) {
        Some(tree) => request_of(tree),
        None => None,
    }
}

/// The response that the JSON text `text` holds.
pub open spec fn response_in(text: Seq<char>) -> Option<Result<TreeView, Seq<char>>> {
    match tree_in(text) {
        Some(tree) => response_of(tree),
        None => None,
    }
}

/// The description of a JSON text whose document holds no tree.
pub open spec fn not_an_integer() -> Seq<char> {
    "a number that is no 64-bit integer, or a nesting too deep"@
}

/// The description of a tree that holds no request.
pub open spec fn no_request() -> Seq<char> {
    "a request holds a name and params"@
}

/// The description of a tree that holds no response.
pub open spec fn no_response() -> Seq<char> {
    "a response holds one result"@
}

/// How the reading of a text that holds no tree is described, as far as it
/// is decided here: a text that is no JSON is described by the JSON reader.
pub open spec fn tree_fault(text: Seq<char>) -> Option<Seq<char>> {
    match parsed_document(text) {
        Some(_) => Some(not_an_integer()),
        None => None,
    }
}

/// How the reading of a text that holds no request is described, as far as
/// it is decided here.
pub open spec fn request_fault(text: Seq<char>) -> Option<Seq<char>> {
    match tree_in(text) {
        Some(_) => Some(no_request()),
        None => tree_fault(text),
    }
}

/// How the reading of a text that holds no response is described, as far as
/// it is decided here.
pub open spec fn response_fault(text: Seq<char>) -> Option<Seq<char>> {
    match tree_in(text) {
        Some(_) => Some(no_response()),
        None => tree_fault(text),
    }
}

/// Whether `description` is a description that `known` allows: the one that
/// is known, or any where none is.
pub open spec fn described(description: Seq<char>, known: Option<Seq<char>>) -> bool {
    known matches Some(d) ==> description == d
}

/// The names of the envelopes' fields differ from one another.
proof fn lemma_field_names()
    ensures
        "name"@ != "params"@,
        "Ok"@ != "Err"@,
{
    reveal_strlit("name");
    reveal_strlit("params");
    reveal_strlit("Ok");
    reveal_strlit("Err");
    assert("name"@.len() != "params"@.len());
    assert("Ok"@.len() != "Err"@.len());
}

/// A request comes out of its tree as it went in.
pub proof fn lemma_request_round_trip(name: Seq<char>, params: TreeView)
    ensures
        request_of(request_tree(name, params)) == Some((name, params)),
{
    lemma_field_names();
    let fields = seq![("name"@, TreeView::Text(name)), ("params"@, params)];
    assert(position(fields, "name"@, 0) == Some(0int));
    assert(position(fields, "params"@, 1) == Some(1int));
    assert(position(fields, "params"@, 0) == Some(1int));
}

/// A response comes out of its tree as it went in.
pub proof fn lemma_response_round_trip(result: Result<TreeView, Seq<char>>)
    ensures
        response_of(response_tree(result)) == Some(result),
{
    lemma_field_names();
    let inner = match result {
        Ok(value) => TreeView::Record(seq![("Ok"@, value)]),
        Err(description) => TreeView::Record(seq![("Err"@, TreeView::Text(description))]),
    };
    let fields = seq![("result"@, inner)];
    assert(position(fields, "result"@, 0) == Some(0int));
}

/// The tree that the JSON text `text` holds; an error where it holds none.
pub fn read_tree(text: &str) -> (r: Result<Tree, ServiceError>)
    ensures
        match tree_in(text@) {
            Some(tree) => r matches Ok(t) && t@ == tree,
            None => r matches Err(e) && described(e@, tree_fault(text@)),
        },
{
    match parse_document(text) {
        Err(e) => Err(ServiceError::from(e)),
        Ok(document) => match tree_of(&document, DEPTH) {
            Some(tree) => Ok(tree),
            None => Err(ServiceError::new("a number that is no 64-bit integer, or a nesting too deep")),
        },
    }
}

/// The JSON text of `tree`.
pub fn write_tree(tree: &Tree) -> (r: String)
    ensures
        r@ == text_of(tree@),
{
    let document = document_of(tree);
    match print_document(&document) {
        Ok(text) => text,
        Err(_) => unreached(),
    }
}

impl RequestEnvelope {
    /// The tree of this request.
    pub fn to_tree(&self) -> (r: Tree)
        ensures
            r@ == request_tree(self.name@, self.params@),
    {
        let mut fields: Vec<(String, Tree)> = Vec::new();
        fields.push(("name".to_owned(), Tree::Text(self.name.clone())));
        fields.push(("params".to_owned(), self.params.duplicate()));
        let r = Tree::Record(fields);
        proof {
            lemma_record_view(fields);
            assert(r@->Record_0 =~= request_tree(self.name@, self.params@)->Record_0);
        }
        r
    }

    /// The request that `tree` holds.
    pub fn from_tree(tree: &Tree) -> (r: Option<RequestEnvelope>)
        ensures
            match request_of(tree@) {
                Some((name, params)) => r matches Some(e) && e.name@ == name && e.params@
                    == params,
                None => r is None,
            },
    {
        let name = match tree.field("name") {
            Some(Tree::Text(name)) => name.clone(),
            _ => {
                return None;
            },
        };
        match tree.field("params") {
            Some(params) => Some(RequestEnvelope { name, params: params.duplicate() }),
            None => None,
        }
    }
}

impl ResponseEnvelope {
    /// The tree of this response.
    pub fn to_tree(&self) -> (r: Tree)
        ensures
            r@ == response_tree(reply(self.result)),
    {
        let mut inner: Vec<(String, Tree)> = Vec::new();
        match &self.result {
            Ok(value) => {
                inner.push(("Ok".to_owned(), value.duplicate()));
            },
            Err(e) => {
                inner.push(("Err".to_owned(), Tree::Text(e.0.clone())));
            },
        }
        let mut fields: Vec<(String, Tree)> = Vec::new();
        let held = Tree::Record(inner);
        proof {
            lemma_record_view(inner);
            assert(held@->Record_0 =~= response_tree(reply(self.result))->Record_0[0].1->Record_0);
        }
        fields.push(("result".to_owned(), held));
        let r = Tree::Record(fields);
        proof {
            lemma_record_view(fields);
            assert(r@->Record_0 =~= response_tree(reply(self.result))->Record_0);
        }
        r
    }

    /// The response that `tree` holds.
    pub fn from_tree(tree: &Tree) -> (r: Option<ResponseEnvelope>)
        ensures
            match response_of(tree@) {
                Some(result) => r matches Some(e) && reply(e.result) == result,
                None => r is None,
            },
    {
        match tree.field("result") {
            Some(Tree::Record(fields)) => {
                proof {
                    lemma_record_view(*fields);
                }
                if fields.len() != 1 {
                    return None;
                }
                let ok = "Ok".to_owned();
                let err = "Err".to_owned();
                if fields[0].0 == ok {
                    Some(ResponseEnvelope { result: Ok(fields[0].1.duplicate()) })
                } else if fields[0].0 == err {
                    match &fields[0].1 {
                        Tree::Text(description) => Some(
                            ResponseEnvelope { result: Err(ServiceError(description.clone())) },
                        ),
                        _ => None,
                    }
                } else {
                    None
                }
            },
            _ => None,
        }
    }
}

/// The JSON text of a request for `name` with the encoded `params`.
pub fn encode_request(name: &str, params: Tree) -> (r: String)
    ensures
        r@ == text_of(request_tree(name@, params@)),
{
    let envelope = RequestEnvelope { name: name.to_owned(), params };
    write_tree(&envelope.to_tree())
}

/// The request that the JSON text `text` holds; an error where it holds none.
pub fn decode_request(text: &str) -> (r: Result<RequestEnvelope, ServiceError>)
    ensures
        match request_in(text@) {
            Some((name, params)) => r matches Ok(e) && e.name@ == name && e.params@ == params,
            None => r matches Err(e) && described(e@, request_fault(text@)),
        },
{
    match read_tree(text) {
        Err(e) => Err(e),
        Ok(tree) => match RequestEnvelope::from_tree(&tree) {
            Some(envelope) => Ok(envelope),
            None => Err(ServiceError::new("a request holds a name and params")),
        },
    }
}

/// The JSON text of a response that carries `result`.
pub fn encode_response(result: Result<Tree, ServiceError>) -> (r: String)
    ensures
        r@ == text_of(response_tree(reply(result))),
{
    let envelope = ResponseEnvelope { result };
    write_tree(&envelope.to_tree())
}

/// The response that the JSON text `text` holds; an error where it holds none.
pub fn decode_response(text: &str) -> (r: Result<ResponseEnvelope, ServiceError>)
    ensures
        match response_in(text@) {
            Some(result) => r matches Ok(e) && reply(e.result) == result,
            None => r matches Err(e) && described(e@, response_fault(text@)),
        },
{
    match read_tree(text) {
        Err(e) => Err(e),
        Ok(tree) => match ResponseEnvelope::from_tree(&tree) {
            Some(envelope) => Ok(envelope),
            None => Err(ServiceError::new("a response holds one result")),
        },
    }
}

} // verus!
