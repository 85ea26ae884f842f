//! The types of arguments and results, as far as the dispatcher knows them:
//! the primitive types by their names, whose values it can tell from others.

use crate::value::{Tree, TreeView};
use vstd::prelude::*;

verus! {

/// The least and the greatest integer of the integer type called `ty` that
/// a tree can hold; `None` where `ty` names no integer type.
pub open spec fn integer_range(ty: Seq<char>) -> Option<(int, int)> {
    if ty == "i8"@ {
        Some((-0x80int, 0x7fint))
    } else if ty == "i16"@ {
        Some((-0x8000int, 0x7fffint))
    } else if ty == "i32"@ {
        Some((-0x8000_0000int, 0x7fff_ffffint))
    } else if ty == "i64"@ {
        Some((-0x8000_0000_0000_0000int, 0x7fff_ffff_ffff_ffffint))
    } else if ty == "u8"@ {
        Some((0int, 0xffint))
    } else if ty == "u16"@ {
        Some((0int, 0xffffint))
    } else if ty == "u32"@ {
        Some((0int, 0xffff_ffffint))
    } else if ty == "u64"@ {
        Some((0int, 0x7fff_ffff_ffff_ffffint))
    } else {
        None
    }
}

/// Whether `value` is a value of the type called `ty`. A `bool` is a boolean,
/// a `String` a text, the unit type the unit value, an integer type an
/// integer in its range. Of any other type the dispatcher knows nothing, and
/// every value passes for one of it.
pub open spec fn conforms(ty: Seq<char>, value: TreeView) -> bool {
    if ty == "bool"@ {
        value is Bool
    } else if ty == "String"@ {
        value is Text
    } else if ty == "( )"@ {
        value is Null
    } else {
        match integer_range(ty) {
            Some((low, high)) => value is Int && low <= value->Int_0 <= high,
            None => true,
        }
    }
}

/// Whether `text` reads `literal`.
fn reads(text: &String, literal: &str) -> (r: bool)
    ensures
        r == (text@ == literal@),
{
    *text == literal.to_owned()
}

/// The least and the greatest integer of the integer type called `ty` that
/// a tree can hold.
pub fn range_of(ty: &String) -> (r: Option<(i64, i64)>)
    ensures
        match integer_range(ty@) {
            Some((low, high)) => r == Some((low as i64, high as i64)) && low == low as i64 && high
                == high as i64,
            None => r is None,
        },
{
    if reads(ty, "i8") {
        Some((-0x80, 0x7f))
    } else if reads(ty, "i16") {
        Some((-0x8000, 0x7fff))
    } else if reads(ty, "i32") {
        Some((-0x8000_0000, 0x7fff_ffff))
    } else if reads(ty, "i64") {
        Some((-0x8000_0000_0000_0000, 0x7fff_ffff_ffff_ffff))
    } else if reads(ty, "u8") {
        Some((0, 0xff))
    } else if reads(ty, "u16") {
        Some((0, 0xffff))
    } else if reads(ty, "u32") {
        Some((0, 0xffff_ffff))
    } else if reads(ty, "u64") {
        Some((0, 0x7fff_ffff_ffff_ffff))
    } else {
        None
    }
}

/// Whether `value` is a value of the type called `ty`.
pub fn is_of_type(ty: &String, value: &Tree) -> (r: bool)
    ensures
        r == conforms(ty@, value@),
{
    if reads(ty, "bool") {
        match value {
            Tree::Bool(_) => true,
            _ => false,
        }
    } else if reads(ty, "String") {
        match value {
            Tree::Text(_) => true,
            _ => false,
        }
    } else if reads(ty, "( )") {
        match value {
            Tree::Null => true,
            _ => false,
        }
    } else {
        match range_of(ty) {
            Some((low, high)) => match value {
                Tree::Int(i) => low <= *i && *i <= high,
                _ => false,
            },
            None => true,
        }
    }
}

} // verus!
