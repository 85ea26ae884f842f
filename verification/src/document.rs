//! Trees as JSON documents and back.

use crate::json::{
    document_shape, document_with, shape_of, shaped_document, Shape, ShapeView,
};
use crate::value::{lemma_list_view, lemma_record_view, Tree, TreeView};
use vstd::prelude::*;

verus! {

/// How many levels a document may have to be read as a tree. No document that
/// is read from text has more.
pub const DEPTH: usize = 128;

/// The tree that a document of at most `depth` levels holds: an object as a
/// record of its members in their order. `None` for a document of more
/// levels, and for one that holds a number that is no `i64`.
pub open spec fn tree_at(document: serde_json::Value, depth: nat) -> Option<TreeView>
    decreases depth, 0nat,
{
    if depth == 0 {
        None
    } else {
        match document_shape(document) {
            None => None,
            Some(ShapeView::Null) => Some(TreeView::Null),
            Some(ShapeView::Bool(b)) => Some(TreeView::Bool(b)),
            Some(ShapeView::Number(i)) => Some(TreeView::Int(i)),
            Some(ShapeView::Text(s)) => Some(TreeView::Text(s)),
            Some(ShapeView::Array(items)) => match trees_at(
                items,
                (depth - 1) as nat,
                items.len(),
            ) {
                Some(trees) => Some(TreeView::List(trees)),
                None => None,
            },
            Some(ShapeView::Object(members)) => match fields_at(
                members,
                (depth - 1) as nat,
                members.len(),
            ) {
                Some(fields) => Some(TreeView::Record(fields)),
                None => None,
            },
        }
    }
}

/// The trees that the first `count` of `items` hold, each of at most `depth`
/// levels; `None` where one of them holds none.
pub open spec fn trees_at(items: Seq<serde_json::Value>, depth: nat, count: nat) -> Option<
    Seq<TreeView>,
>
    decreases depth, count + 1,
{
    if count == 0 {
        Some(Seq::empty())
    } else {
        match (trees_at(items, depth, (count - 1) as nat), tree_at(items[count - 1], depth)) {
            (Some(trees), Some(tree)) => Some(trees.push(tree)),
            _ => None,
        }
    }
}

/// The fields that the first `count` of `members` hold, each of at most
/// `depth` levels; `None` where one of them holds none.
pub open spec fn fields_at(
    members: Seq<(Seq<char>, serde_json::Value)>,
    depth: nat,
    count: nat,
) -> Option<Seq<(Seq<char>, TreeView)>>
    decreases depth, count + 1,
{
    if count == 0 {
        Some(Seq::empty())
    } else {
        match (fields_at(members, depth, (count - 1) as nat), tree_at(members[count - 1].1, depth)) {
            (Some(fields), Some(tree)) => Some(fields.push((members[count - 1].0, tree))),
            _ => None,
        }
    }
}

/// The tree that a document holds.
pub open spec fn document_tree(document: serde_json::Value) -> Option<TreeView> {
    tree_at(document, DEPTH as nat)
}

/// The document that is built from a tree: a record as an object, to which
/// the fields are added in order.
pub open spec fn tree_document(tree: TreeView) -> serde_json::Value
    decreases tree,
{
    match tree {
        TreeView::Null => shaped_document(ShapeView::Null),
        TreeView::Bool(b) => shaped_document(ShapeView::Bool(b)),
        TreeView::Int(i) => shaped_document(ShapeView::Number(i)),
        TreeView::Text(s) => shaped_document(ShapeView::Text(s)),
        TreeView::List(items) => shaped_document(ShapeView::Array(documents_of(items))),
        TreeView::Record(fields) => shaped_document(ShapeView::Object(members_of(fields))),
    }
}

/// The documents that are built from `items`, one for one.
pub open spec fn documents_of(items: Seq<TreeView>) -> Seq<serde_json::Value>
    decreases items,
{
    Seq::new(
        items.len(),
        |i: int|
            if 0 <= i < items.len() {
                tree_document(items[i])
            } else {
                shaped_document(ShapeView::Null)
            },
    )
}

/// The members that are built from `fields`, one for one.
pub open spec fn members_of(fields: Seq<(Seq<char>, TreeView)>) -> Seq<
    (Seq<char>, serde_json::Value),
>
    decreases fields,
{
    Seq::new(
        fields.len(),
        |i: int|
            if 0 <= i < fields.len() {
                (fields[i].0, tree_document(fields[i].1))
            } else {
                (Seq::empty(), shaped_document(ShapeView::Null))
            },
    )
}

/// Once one of the items holds no tree, the items hold none.
proof fn lemma_trees_fail(items: Seq<serde_json::Value>, depth: nat, at: nat, count: nat)
    requires
        at <= count,
        trees_at(items, depth, at) is None,
    ensures
        trees_at(items, depth, count) is None,
    decreases count - at,
{
    if at < count {
        lemma_trees_fail(items, depth, at, (count - 1) as nat);
    }
}

/// Once one of the members holds no tree, the members hold no fields.
proof fn lemma_fields_fail(
    members: Seq<(Seq<char>, serde_json::Value)>,
    depth: nat,
    at: nat,
    count: nat,
)
    requires
        at <= count,
        fields_at(members, depth, at) is None,
    ensures
        fields_at(members, depth, count) is None,
    decreases count - at,
{
    if at < count {
        lemma_fields_fail(members, depth, at, (count - 1) as nat);
    }
}

/// The tree that a document of at most `depth` levels holds.
pub fn tree_of(document: &serde_json::Value, depth: usize) -> (r: Option<Tree>)
    ensures
        match tree_at(*document, depth as nat) {
            Some(tree) => r matches Some(t) && t@ == tree,
            None => r is None,
        },
    decreases depth,
{
    if depth == 0 {
        return None;
    }
    match shape_of(document) {
        None => None,
        Some(Shape::Null) => Some(Tree::Null),
        Some(Shape::Bool(b)) => Some(Tree::Bool(b)),
        Some(Shape::Number(i)) => Some(Tree::Int(i)),
        Some(Shape::Text(s)) => Some(Tree::Text(s)),
        Some(Shape::Array(items)) => {
            let mut trees: Vec<Tree> = Vec::new();
            let mut i: usize = 0;
            while i < items.len()
                invariant
                    i <= items.len(),
                    depth > 0,
                    document_shape(*document) == Some(ShapeView::Array(items@)),
                    trees.len() == i,
                    trees_at(items@, (depth - 1) as nat, i as nat) matches Some(found)
                        && found.len() == i && forall|j: int|
                        0 <= j < i ==> #[trigger] trees@[j]@ == found[j],
                decreases items.len() - i,
            {
                match tree_of(&items[i], depth - 1) {
                    Some(tree) => {
                        trees.push(tree);
                    },
                    None => {
                        proof {
                            assert(trees_at(items@, (depth - 1) as nat, (i + 1) as nat) is None);
                            lemma_trees_fail(
                                items@,
                                (depth - 1) as nat,
                                (i + 1) as nat,
                                items@.len(),
                            );
                        }
                        return None;
                    },
                }
                i = i + 1;
            }
            let r = Tree::List(trees);
            proof {
                lemma_list_view(trees);
                let found = trees_at(items@, (depth - 1) as nat, items@.len())->Some_0;
                assert(r@->List_0 =~= found);
            }
            Some(r)
        },
        Some(Shape::Object(members)) => {
            let ghost held = Shape::Object(members)@->Object_0;
            let mut fields: Vec<(String, Tree)> = Vec::new();
            let mut i: usize = 0;
            while i < members.len()
                invariant
                    i <= members.len(),
                    depth > 0,
                    document_shape(*document) == Some(ShapeView::Object(held)),
                    fields.len() == i,
                    held.len() == members@.len(),
                    forall|j: int|
                        0 <= j < members@.len() ==> #[trigger] held[j] == (
                            members@[j].0@,
                            members@[j].1,
                        ),
                    fields_at(held, (depth - 1) as nat, i as nat) matches Some(found)
                        && found.len() == i && forall|j: int|
                        0 <= j < i ==> (#[trigger] fields@[j]).0@ == found[j].0 && fields@[j].1@
                            == found[j].1,
                decreases members.len() - i,
            {
                assert(held[i as int] == (members@[i as int].0@, members@[i as int].1));
                match tree_of(&members[i].1, depth - 1) {
                    Some(tree) => {
                        fields.push((members[i].0.clone(), tree));
                    },
                    None => {
                        proof {
                            assert(fields_at(held, (depth - 1) as nat, (i + 1) as nat) is None);
                            lemma_fields_fail(
                                held,
                                (depth - 1) as nat,
                                (i + 1) as nat,
                                held.len(),
                            );
                        }
                        return None;
                    },
                }
                i = i + 1;
            }
            let r = Tree::Record(fields);
            proof {
                lemma_record_view(fields);
                let found = fields_at(held, (depth - 1) as nat, held.len())->Some_0;
                assert(r@->Record_0 =~= found);
            }
            Some(r)
        },
    }
}

/// The document that is built from `tree`.
pub fn document_of(tree: &Tree) -> (r: serde_json::Value)
    ensures
        r == tree_document(tree@),
    decreases tree,
{
    match tree {
        Tree::Null => document_with(Shape::Null),
        Tree::Bool(b) => document_with(Shape::Bool(*b)),
        Tree::Int(i) => document_with(Shape::Number(*i)),
        Tree::Text(s) => document_with(Shape::Text(s.clone())),
        Tree::List(items) => {
            let mut documents: Vec<serde_json::Value> = Vec::new();
            let mut i: usize = 0;
            while i < items.len()
                invariant
                    decreases_to!(tree => items),
                    i <= items.len(),
                    documents.len() == i,
                    forall|j: int| 0 <= j < i ==> documents@[j] == tree_document(items@[j]@),
                decreases items.len() - i,
            {
                documents.push(document_of(&items[i]));
                i = i + 1;
            }
            let shape = Shape::Array(documents);
            proof {
                lemma_list_view(*items);
                assert(shape@->Array_0 =~= documents_of(tree@->List_0));
            }
            document_with(shape)
        },
        Tree::Record(fields) => {
            let mut members: Vec<(String, serde_json::Value)> = Vec::new();
            let mut i: usize = 0;
            while i < fields.len()
                invariant
                    decreases_to!(tree => fields),
                    i <= fields.len(),
                    members.len() == i,
                    forall|j: int|
                        0 <= j < i ==> (#[trigger] members@[j]).0@ == fields@[j].0@
                            && members@[j].1 == tree_document(fields@[j].1@),
                decreases fields.len() - i,
            {
                members.push((fields[i].0.clone(), document_of(&fields[i].1)));
                i = i + 1;
            }
            let shape = Shape::Object(members);
            proof {
                lemma_record_view(*fields);
                assert(shape@->Object_0 =~= members_of(tree@->Record_0));
            }
            document_with(shape)
        },
    }
}

} // verus!
