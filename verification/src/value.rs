//! The structured value tree that arguments and results are encoded into.

use crate::directory::{lookup, position};
use vstd::prelude::*;

verus! {

/// A structured value: a primitive, a list, or a record of named fields.
#[derive(Debug, PartialEq, Eq)]
pub enum Tree {
    /// The unit value.
    Null,
    Bool(bool),
    Int(i64),
    Text(String),
    List(Vec<Tree>),
    /// Named fields, in the order in which they were written.
    Record(Vec<(String, Tree)>),
}

/// The mathematical value of a `Tree`.
pub enum TreeView {
    Null,
    Bool(bool),
    Int(int),
    Text(Seq<char>),
    List(Seq<TreeView>),
    Record(Seq<(Seq<char>, TreeView)>),
}

impl TreeView {
    /// The value of the first field called `name`, where this is a record that has one.
    pub open spec fn field(self, name: Seq<char>) -> Option<TreeView> {
        match self {
            TreeView::Record(fields) => lookup(fields, name),
            _ => None,
        }
    }

    /// The integer held, where it is one that fits in 32 bits.
    pub open spec fn as_i32(self) -> Option<i32> {
        match self {
            TreeView::Int(i) => if i32::MIN <= i <= i32::MAX {
                Some(i as i32)
            } else {
                None
            },
            _ => None,
        }
    }

    /// The boolean held, where this is one.
    pub open spec fn as_bool(self) -> Option<bool> {
        match self {
            TreeView::Bool(b) => Some(b),
            _ => None,
        }
    }

    /// The text held, where this is one.
    pub open spec fn as_text(self) -> Option<Seq<char>> {
        match self {
            TreeView::Text(s) => Some(s),
            _ => None,
        }
    }
}

/// The views of the items of `items`, in order.
pub open spec fn views<T: View>(items: Seq<T>) -> Seq<T::V> {
    Seq::new(items.len(), |i: int| items[i]@)
}

/// The mathematical value of `tree`.
pub open spec fn tree_view(tree: Tree) -> TreeView
    decreases tree,
{
    match tree {
        Tree::Null => TreeView::Null,
        Tree::Bool(b) => TreeView::Bool(b),
        Tree::Int(i) => TreeView::Int(i as int),
        Tree::Text(s) => TreeView::Text(s@),
        Tree::List(items) => TreeView::List(
            Seq::new(
                items@.len(),
                |i: int|
                    if 0 <= i < items@.len() {
                        tree_view(items@[i])
                    } else {
                        TreeView::Null
                    },
            ),
        ),
        Tree::Record(fields) => TreeView::Record(
            Seq::new(
                fields@.len(),
                |i: int|
                    if 0 <= i < fields@.len() {
                        (fields@[i].0@, tree_view(fields@[i].1))
                    } else {
                        (Seq::empty(), TreeView::Null)
                    },
            ),
        ),
    }
}

impl View for Tree {
    type V = TreeView;

    open spec fn view(&self) -> TreeView {
        tree_view(*self)
    }
}

/// A list's view has the list's length and holds the views of its items.
pub proof fn lemma_list_view(items: Vec<Tree>)
    ensures
        Tree::List(items)@ is List,
        Tree::List(items)@->List_0.len() == items@.len(),
        forall|i: int| 0 <= i < items@.len() ==> Tree::List(items)@->List_0[i] == items@[i]@,
{
}

/// A record's view has the record's length and holds its names and the views of its values.
pub proof fn lemma_record_view(fields: Vec<(String, Tree)>)
    ensures
        Tree::Record(fields)@ is Record,
        Tree::Record(fields)@->Record_0.len() == fields@.len(),
        forall|i: int|
            0 <= i < fields@.len() ==> Tree::Record(fields)@->Record_0[i] == (
                fields@[i].0@,
                fields@[i].1@,
            ),
{
}

impl Tree {
    /// The unit value.
    pub fn unit() -> (r: Tree)
        ensures
            r@ == TreeView::Null,
    {
        Tree::Null
    }

    /// The tree of a boolean.
    pub fn from_bool(value: bool) -> (r: Tree)
        ensures
            r@ == TreeView::Bool(value),
            r@.as_bool() == Some(value),
    {
        Tree::Bool(value)
    }

    /// The tree of a 32-bit integer.
    pub fn from_i32(value: i32) -> (r: Tree)
        ensures
            r@ == TreeView::Int(value as int),
            r@.as_i32() == Some(value),
    {
        Tree::Int(value as i64)
    }

    /// The tree of a text.
    pub fn from_text(value: &str) -> (r: Tree)
        ensures
            r@ == TreeView::Text(value@),
            r@.as_text() == Some(value@),
    {
        Tree::Text(value.to_owned())
    }

    /// The boolean held, unless this is none.
    pub fn as_bool(&self) -> (r: Option<bool>)
        ensures
            r == self@.as_bool(),
    {
        match self {
            Tree::Bool(b) => Some(*b),
            _ => None,
        }
    }

    /// The integer held, unless this is no integer or one outside 32 bits.
    pub fn as_i32(&self) -> (r: Option<i32>)
        ensures
            r == self@.as_i32(),
    {
        match self {
            Tree::Int(i) => {
                if -2147483648 <= *i && *i <= 2147483647 {
                    Some(*i as i32)
                } else {
                    None
                }
            },
            _ => None,
        }
    }

    /// The text held, unless this is none.
    pub fn as_text(&self) -> (r: Option<String>)
        ensures
            r is Some <==> self@.as_text() is Some,
            r matches Some(s) ==> Some(s@) == self@.as_text(),
    {
        match self {
            Tree::Text(s) => Some(s.clone()),
            _ => None,
        }
    }

    /// The first field called `name`, where this is a record that has one.
    pub fn field(&self, name: &str) -> (r: Option<&Tree>)
        ensures
            r is Some <==> self@.field(name@) is Some,
            r matches Some(t) ==> Some(t@) == self@.field(name@),
    {
        match self {
            Tree::Record(fields) => {
                let wanted = name.to_owned();
                let mut i: usize = 0;
                while i < fields.len()
                    invariant
                        i <= fields.len(),
                        self@ is Record,
                        self@->Record_0.len() == fields@.len(),
                        forall|j: int|
                            0 <= j < fields@.len() ==> self@->Record_0[j] == (
                                fields@[j].0@,
                                fields@[j].1@,
                            ),
                        wanted@ == name@,
                        position(self@->Record_0, name@, 0) == position(
                            self@->Record_0,
                            name@,
                            i as int,
                        ),
                    decreases fields.len() - i,
                {
                    if fields[i].0 == wanted {
                        return Some(&fields[i].1);
                    }
                    i = i + 1;
                }
                None
            },
            _ => None,
        }
    }

    /// A copy of this tree.
    pub fn duplicate(&self) -> (r: Tree)
        ensures
            r@ == self@,
        decreases self,
    {
        match self {
            Tree::Null => Tree::Null,
            Tree::Bool(b) => Tree::Bool(*b),
            Tree::Int(i) => Tree::Int(*i),
            Tree::Text(s) => Tree::Text(s.clone()),
            Tree::List(items) => {
                let mut out: Vec<Tree> = Vec::new();
                let mut i: usize = 0;
                while i < items.len()
                    invariant
                        decreases_to!(self => items),
                        i <= items.len(),
                        out.len() == i,
                        forall|j: int| 0 <= j < i ==> out@[j]@ == items@[j]@,
                    decreases items.len() - i,
                {
                    out.push(items[i].duplicate());
                    i = i + 1;
                }
                let r = Tree::List(out);
                assert(r@->List_0 =~= self@->List_0);
                r
            },
            Tree::Record(fields) => {
                let mut out: Vec<(String, Tree)> = Vec::new();
                let mut i: usize = 0;
                while i < fields.len()
                    invariant
                        decreases_to!(self => fields),
                        i <= fields.len(),
                        out.len() == i,
                        forall|j: int|
                            0 <= j < i ==> out@[j].0@ == fields@[j].0@ && out@[j].1@
                                == fields@[j].1@,
                    decreases fields.len() - i,
                {
                    out.push((fields[i].0.clone(), fields[i].1.duplicate()));
                    i = i + 1;
                }
                let r = Tree::Record(out);
                assert(r@->Record_0 =~= self@->Record_0);
                r
            },
        }
    }
}

} // verus!
