//! When two services are the same: their contracts are a set.

use crate::model::{holds, texts, ServiceModel};
use vstd::prelude::*;
use vstd::std_specs::cmp::PartialEqSpecImpl;

verus! {

/// Whether every one of `names` is among `others`.
pub open spec fn all_among(names: Seq<Seq<char>>, others: Seq<Seq<char>>) -> bool {
    forall|i: int| 0 <= i < names.len() ==> others.contains(#[trigger] names[i])
}

/// Whether two services are the same: they have the same names, both have a
/// session or neither has, and each implements every contract of the other.
pub open spec fn same_service(first: ServiceModel, second: ServiceModel) -> bool {
    &&& first.name@ == second.name@
    &&& first.mod_ident@ == second.mod_ident@
    &&& first.has_session == second.has_session
    &&& all_among(texts(first.services@), texts(second.services@))
    &&& all_among(texts(second.services@), texts(first.services@))
}

/// Whether every one of `names` is among `others`.
fn within(names: &Vec<String>, others: &Vec<String>) -> (r: bool)
    ensures
        r == all_among(texts(names@), texts(others@)),
{
    let mut i: usize = 0;
    while i < names.len()
        invariant
            i <= names.len(),
            forall|j: int| 0 <= j < i ==> texts(others@).contains(#[trigger] texts(names@)[j]),
        decreases names.len() - i,
    {
        if !holds(others, &names[i]) {
            assert(!texts(others@).contains(texts(names@)[i as int]));
            return false;
        }
        i = i + 1;
    }
    true
}

impl PartialEq for ServiceModel {
    fn eq(&self, other: &Self) -> (r: bool) {
        self.name == other.name && self.mod_ident == other.mod_ident && self.has_session
            == other.has_session && within(&self.services, &other.services) && within(
            &other.services,
            &self.services,
        )
    }
}

impl PartialEqSpecImpl for ServiceModel {
    open spec fn obeys_eq_spec() -> bool {
        true
    }

    open spec fn eq_spec(&self, other: &Self) -> bool {
        same_service(*self, *other)
    }
}

} // verus!
