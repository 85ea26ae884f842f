//! A directory: values kept under text keys, at most one under each.

use vstd::prelude::*;

verus! {

/// The index of the first entry at or after `from` that stands under `key`.
pub open spec fn position<V>(entries: Seq<(Seq<char>, V)>, key: Seq<char>, from: int) -> Option<
    int,
>
    decreases entries.len() - from,
{
    if from < 0 || from >= entries.len() {
        None
    } else if entries[from].0 == key {
        Some(from)
    } else {
        position(entries, key, from + 1)
    }
}

/// The value of the first entry that stands under `key`.
pub open spec fn lookup<V>(entries: Seq<(Seq<char>, V)>, key: Seq<char>) -> Option<V> {
    match position(entries, key, 0) {
        Some(i) => Some(entries[i].1),
        None => None,
    }
}

/// The entries after `value` is put under `key`: in place of the first entry
/// that stood under it, or last where none did.
pub open spec fn inserted<V>(entries: Seq<(Seq<char>, V)>, key: Seq<char>, value: V) -> Seq<
    (Seq<char>, V),
> {
    match position(entries, key, 0) {
        Some(i) => entries.update(i, (key, value)),
        None => entries.push((key, value)),
    }
}

/// No two entries stand under one key.
pub open spec fn distinct_keys<V>(entries: Seq<(Seq<char>, V)>) -> bool {
    forall|i: int, j: int| 0 <= i < j < entries.len() ==> entries[i].0 != entries[j].0
}

/// What `position` finds lies in range, at or after `from`, and holds the
/// key, as no entry between `from` and it does; where it finds nothing, no
/// entry from `from` on holds the key.
pub proof fn lemma_position<V>(entries: Seq<(Seq<char>, V)>, key: Seq<char>, from: int)
    requires
        0 <= from,
    ensures
        match position(entries, key, from) {
            Some(i) => from <= i < entries.len() && entries[i].0 == key && forall|j: int|
                from <= j < i ==> entries[j].0 != key,
            None => forall|j: int| from <= j < entries.len() ==> entries[j].0 != key,
        },
    decreases entries.len() - from,
{
    if from < entries.len() && entries[from].0 != key {
        lemma_position(entries, key, from + 1);
    }
}

/// The first entry of a key from `from` on is found where it stands.
pub proof fn lemma_position_first<V>(
    entries: Seq<(Seq<char>, V)>,
    key: Seq<char>,
    from: int,
    at: int,
)
    requires
        0 <= from <= at < entries.len(),
        entries[at].0 == key,
        forall|j: int| from <= j < at ==> entries[j].0 != key,
    ensures
        position(entries, key, from) == Some(at),
    decreases at - from,
{
    if from < at {
        lemma_position_first(entries, key, from + 1, at);
    }
}

/// Under one key stands at most one value: among distinct keys an entry is
/// found where it stands, and what is found under its key is its value.
pub proof fn lemma_entry_found<V>(entries: Seq<(Seq<char>, V)>, at: int)
    requires
        distinct_keys(entries),
        0 <= at < entries.len(),
    ensures
        position(entries, entries[at].0, 0) == Some(at),
        lookup(entries, entries[at].0) == Some(entries[at].1),
{
    lemma_position_first(entries, entries[at].0, 0, at);
}

/// Distinct keys that all equal `key` are at most one.
pub proof fn lemma_single_key<V>(entries: Seq<(Seq<char>, V)>, key: Seq<char>)
    requires
        distinct_keys(entries),
        forall|i: int| 0 <= i < entries.len() ==> entries[i].0 == key,
    ensures
        entries.len() <= 1,
{
    if entries.len() >= 2 {
        assert(entries[0].0 != entries[1].0);
    }
}

/// Two sequences with the same keys in the same places, which agree wherever
/// the key is `key`, find `key` in the same place.
proof fn lemma_positions_agree<V>(
    first: Seq<(Seq<char>, V)>,
    second: Seq<(Seq<char>, V)>,
    key: Seq<char>,
    from: int,
)
    requires
        0 <= from,
        first.len() == second.len(),
        forall|i: int| 0 <= i < first.len() ==> first[i].0 == second[i].0,
        forall|i: int| 0 <= i < first.len() && first[i].0 == key ==> first[i] == second[i],
    ensures
        position(first, key, from) == position(second, key, from),
        position(first, key, from) matches Some(i) ==> first[i] == second[i],
    decreases first.len() - from,
{
    if from < first.len() && first[from].0 != key {
        lemma_positions_agree(first, second, key, from + 1);
    }
}

/// One more entry at the end, under another key, does not move `key`.
proof fn lemma_position_push<V>(
    entries: Seq<(Seq<char>, V)>,
    added: (Seq<char>, V),
    key: Seq<char>,
    from: int,
)
    requires
        0 <= from,
        key != added.0,
    ensures
        position(entries.push(added), key, from) == position(entries, key, from),
    decreases entries.len() + 1 - from,
{
    let longer = entries.push(added);
    if from < entries.len() {
        assert(longer[from] == entries[from]);
        if entries[from].0 != key {
            lemma_position_push(entries, added, key, from + 1);
        }
    } else if from == entries.len() {
        assert(longer[from].0 == added.0);
        assert(position(longer, key, from + 1) is None);
    }
}

/// A new value under a key changes the lookup of no other key.
pub proof fn lemma_lookup_update<V>(entries: Seq<(Seq<char>, V)>, at: int, value: V, key: Seq<char>)
    requires
        0 <= at < entries.len(),
        key != entries[at].0,
    ensures
        lookup(entries.update(at, (entries[at].0, value)), key) == lookup(entries, key),
{
    lemma_positions_agree(entries, entries.update(at, (entries[at].0, value)), key, 0);
}

/// An entry under a new key changes the lookup of no other key.
pub proof fn lemma_lookup_push<V>(entries: Seq<(Seq<char>, V)>, added: (Seq<char>, V), key: Seq<char>)
    requires
        key != added.0,
    ensures
        lookup(entries.push(added), key) == lookup(entries, key),
{
    lemma_position_push(entries, added, key, 0);
    lemma_position(entries, key, 0);
}

/// What is put under a key is found under it, and under no other key is
/// anything found that was not found before; keys that were distinct stay
/// distinct.
pub proof fn lemma_inserted<V>(
    entries: Seq<(Seq<char>, V)>,
    key: Seq<char>,
    value: V,
    other: Seq<char>,
)
    ensures
        lookup(inserted(entries, key, value), key) == Some(value),
        other != key ==> lookup(inserted(entries, key, value), other) == lookup(entries, other),
        distinct_keys(entries) ==> distinct_keys(inserted(entries, key, value)),
{
    let after = inserted(entries, key, value);
    lemma_position(entries, key, 0);
    match position(entries, key, 0) {
        Some(i) => {
            lemma_position_first(after, key, 0, i);
            if other != key {
                lemma_lookup_update(entries, i, value, other);
            }
        },
        None => {
            lemma_position_first(after, key, 0, entries.len() as int);
            if other != key {
                lemma_lookup_push(entries, (key, value), other);
            }
        },
    }
}

/// Values under text keys, at most one under each key, in the order in which
/// the keys came.
pub struct Directory<V> {
    entries: Vec<(String, V)>,
}

impl<V> View for Directory<V> {
    type V = Seq<(Seq<char>, V)>;

    closed spec fn view(&self) -> Seq<(Seq<char>, V)> {
        Seq::new(self.entries@.len(), |i: int| (self.entries@[i].0@, self.entries@[i].1))
    }
}

impl<V> Directory<V> {
    #[verifier::type_invariant]
    spec fn well_formed(&self) -> bool {
        distinct_keys(self@)
    }

    /// The value under `key`.
    pub open spec fn value(&self, key: Seq<char>) -> Option<V> {
        lookup(self@, key)
    }

    /// A directory without entries.
    pub fn new() -> (r: Self)
        ensures
            r@ == Seq::<(Seq<char>, V)>::empty(),
    {
        let r = Directory { entries: Vec::new() };
        assert(r@ =~= Seq::<(Seq<char>, V)>::empty());
        r
    }

    /// The number of entries.
    pub fn len(&self) -> (r: usize)
        ensures
            r == self@.len(),
            distinct_keys(self@),
    {
        proof {
            use_type_invariant(self);
        }
        self.entries.len()
    }

    /// Where `key` stands.
    fn find(&self, key: &str) -> (r: Option<usize>)
        ensures
            r matches Some(i) ==> i < self.entries@.len() && position(self@, key@, 0) == Some(
                i as int,
            ),
            r is None ==> position(self@, key@, 0) is None,
    {
        let wanted = key.to_owned();
        let mut i: usize = 0;
        while i < self.entries.len()
            invariant
                i <= self.entries.len(),
                wanted@ == key@,
                position(self@, key@, 0) == position(self@, key@, i as int),
            decreases self.entries.len() - i,
        {
            if self.entries[i].0 == wanted {
                return Some(i);
            }
            i = i + 1;
        }
        None
    }

    /// The value under `key`.
    pub fn get(&self, key: &str) -> (r: Option<&V>)
        ensures
            distinct_keys(self@),
            match self.value(key@) {
                Some(v) => r == Some(&v),
                None => r is None,
            },
    {
        proof {
            use_type_invariant(self);
        }
        match self.find(key) {
            Some(i) => Some(&self.entries[i].1),
            None => None,
        }
    }

    /// Puts `value` under `key`, in place of what stood under it. No other
    /// key is touched; a key that is new comes last.
    pub fn insert(&mut self, key: &str, value: V)
        ensures
            final(self)@ == inserted(old(self)@, key@, value),
            distinct_keys(final(self)@),
            final(self).value(key@) == Some(value),
            forall|k: Seq<char>|
                k != key@ ==> #[trigger] final(self).value(k) == old(self).value(k),
            old(self).value(key@) is None ==> final(self)@ == old(self)@.push((key@, value)),
            old(self).value(key@) is Some ==> final(self)@.len() == old(self)@.len(),
            forall|i: int|
                0 <= i < final(self)@.len() ==> (#[trigger] final(self)@[i]).1 == value || (i
                    < old(self)@.len() && final(self)@[i] == old(self)@[i]),
    {
        proof {
            use_type_invariant(&*self);
        }
        let ghost before = self@;
        let found = self.find(key);
        let mut entries: Vec<(String, V)> = Vec::new();
        std::mem::swap(&mut self.entries, &mut entries);
        let ghost held = entries@;
        assert(before =~= Seq::new(held.len(), |i: int| (held[i].0@, held[i].1)));
        match found {
            Some(i) => {
                entries.set(i, (key.to_owned(), value));
            },
            None => {
                entries.push((key.to_owned(), value));
            },
        }
        let ghost after = Seq::new(entries@.len(), |i: int| (entries@[i].0@, entries@[i].1));
        proof {
            lemma_position(before, key@, 0);
            match found {
                Some(i) => {
                    assert(after =~= before.update(i as int, (key@, value)));
                    lemma_position_first(after, key@, 0, i as int);
                    assert forall|k: Seq<char>| k != key@ implies #[trigger] lookup(after, k)
                        == lookup(before, k) by {
                        lemma_lookup_update(before, i as int, value, k);
                    }
                },
                None => {
                    assert(after =~= before.push((key@, value)));
                    lemma_position_first(after, key@, 0, before.len() as int);
                    assert forall|k: Seq<char>| k != key@ implies #[trigger] lookup(after, k)
                        == lookup(before, k) by {
                        lemma_lookup_push(before, (key@, value), k);
                    }
                },
            }
            assert(distinct_keys(after));
        }
        std::mem::swap(&mut self.entries, &mut entries);
        assert(self@ =~= after);
    }
}

} // verus!
