//! An insertion-ordered map from names to IDs, on top of `indexmap::IndexMap`.
//!
//! The functions of `IndexMap` are not verified. What this module takes from
//! them on trust is stated by the contracts of the `index_map_*` functions
//! below, over `index_map_entries`; everything else is proved from those.
use vstd::prelude::*;
use indexmap::IndexMap;

verus! {

/// `indexmap::IndexMap`, a hash map that keeps its entries in the order of
/// their insertion. Nothing is known of a value of this type but what the
/// functions below state of it.
#[verifier::external_type_specification]
#[verifier::external_body]
#[verifier::reject_recursive_types(K)]
#[verifier::reject_recursive_types(V)]
#[verifier::reject_recursive_types(S)]
pub struct ExIndexMap<K, V, S>(IndexMap<K, V, S>);

/// The keys of an `IndexMap` with their values, in the order of the map.
pub uninterp spec fn index_map_entries(map: IndexMap<String, usize>) -> Seq<(Seq<char>, usize)>;

/// Some entry has the name `name`.
pub open spec fn holds_name(entries: Seq<(Seq<char>, usize)>, name: Seq<char>) -> bool {
    exists|i: int| 0 <= i < entries.len() && (#[trigger] entries[i]).0 == name
}

/// No two entries have the same name.
pub open spec fn names_distinct(entries: Seq<(Seq<char>, usize)>) -> bool {
    forall|i: int, j: int|
        0 <= i < j < entries.len() ==> (#[trigger] entries[i]).0 != (#[trigger] entries[j]).0
}

/// The entries after `name` was given `value`: a name that is there keeps its
/// place and gets the new value, a name that is new goes to the end.
pub open spec fn with_entry(entries: Seq<(Seq<char>, usize)>, name: Seq<char>, value: usize) -> Seq<
    (Seq<char>, usize),
> {
    if holds_name(entries, name) {
        Seq::new(
            entries.len(),
            |i: int|
                if entries[i].0 == name {
                    (name, value)
                } else {
                    entries[i]
                },
        )
    } else {
        entries.push((name, value))
    }
}

/// The place of the entry named `name`, for a name that occurs.
pub open spec fn place_of_name(entries: Seq<(Seq<char>, usize)>, name: Seq<char>) -> int {
    choose|i: int| 0 <= i < entries.len() && (#[trigger] entries[i]).0 == name
}

/// The value that the entries give to `name`, if any.
pub open spec fn value_of_name(entries: Seq<(Seq<char>, usize)>, name: Seq<char>) -> Option<usize> {
    if holds_name(entries, name) {
        Some(entries[place_of_name(entries, name)].1)
    } else {
        None
    }
}

/// Among distinct names, the entry at place `i` is the one its name is
/// looked up to.
pub proof fn lemma_value_of_name(entries: Seq<(Seq<char>, usize)>, i: int)
    requires
        names_distinct(entries),
        0 <= i < entries.len(),
    ensures
        holds_name(entries, entries[i].0),
        place_of_name(entries, entries[i].0) == i,
        value_of_name(entries, entries[i].0) == Some(entries[i].1),
{
    let p = place_of_name(entries, entries[i].0);
    if p < i {
        assert(entries[p].0 != entries[i].0);
    } else if i < p {
        assert(entries[i].0 != entries[p].0);
    }
}

/// Giving a name a value keeps the names distinct. Afterwards that name is
/// looked up to the new value, and every other name to what it had.
pub proof fn lemma_with_entry(entries: Seq<(Seq<char>, usize)>, name: Seq<char>, value: usize)
    requires
        names_distinct(entries),
    ensures
        names_distinct(with_entry(entries, name, value)),
        value_of_name(with_entry(entries, name, value), name) == Some(value),
        forall|other: Seq<char>|
            other != name ==> #[trigger] value_of_name(with_entry(entries, name, value), other)
                == value_of_name(entries, other),
        forall|other: Seq<char>|
            other != name ==> (#[trigger] holds_name(with_entry(entries, name, value), other)
                <==> holds_name(entries, other)),
        holds_name(with_entry(entries, name, value), name),
{
    let after = with_entry(entries, name, value);
    assert(names_distinct(after)) by {
        assert forall|i: int, j: int| 0 <= i < j < after.len() implies (#[trigger] after[i]).0 != (
        #[trigger] after[j]).0 by {
            if holds_name(entries, name) {
                assert(entries[i].0 != entries[j].0);
            } else if j == entries.len() {
                assert(entries[i].0 != name);
            } else {
                assert(entries[i].0 != entries[j].0);
            }
        }
    }
    let at = if holds_name(entries, name) {
        place_of_name(entries, name)
    } else {
        entries.len() as int
    };
    assert(after[at] == (name, value));
    lemma_value_of_name(after, at);
    assert forall|other: Seq<char>| other != name implies (#[trigger] holds_name(after, other)
        <==> holds_name(entries, other)) && value_of_name(after, other) == value_of_name(
        entries,
        other,
    ) by {
        if holds_name(entries, other) {
            let i = place_of_name(entries, other);
            assert(after[i] == entries[i]);
            lemma_value_of_name(after, i);
        }
        if holds_name(after, other) {
            let i = place_of_name(after, other);
            assert(i < entries.len());
            assert(entries[i] == after[i]);
            lemma_value_of_name(entries, i);
        }
    }
}

/// `IndexMap::new`: the new map holds nothing.
#[verifier::external_body]
fn index_map_new() -> (map: IndexMap<String, usize>)
    ensures
        index_map_entries(map) == Seq::<(Seq<char>, usize)>::empty(),
{
    IndexMap::new()
}

/// `IndexMap::insert`: a key that is in the map keeps its place and gets the
/// new value; a key that is new is added as the last entry.
#[verifier::external_body]
fn index_map_insert(map: &mut IndexMap<String, usize>, name: String, value: usize)
    ensures
        index_map_entries(*final(map)) == with_entry(index_map_entries(*old(map)), name@, value),
{
    map.insert(name, value);
}

/// `IndexMap::get`: the value of the entry with the given key, or nothing where
/// no entry has that key.
#[verifier::external_body]
fn index_map_get(map: &IndexMap<String, usize>, name: &str) -> (r: Option<usize>)
    ensures
        match r {
            Some(value) => exists|i: int|
                0 <= i < index_map_entries(*map).len() && #[trigger] index_map_entries(*map)[i] == (
                    name@,
                    value,
                ),
            None => !holds_name(index_map_entries(*map), name@),
        },
{
    map.get(name).copied()
}

/// `IndexMap::get_index`: the entry at the given place in the map's order, or
/// nothing where the map has fewer entries.
#[verifier::external_body]
fn index_map_get_index(map: &IndexMap<String, usize>, index: usize) -> (r: Option<(&String, usize)>)
    ensures
        match r {
            Some(entry) => index < index_map_entries(*map).len() && (entry.0@, entry.1)
                == index_map_entries(*map)[index as int],
            None => index >= index_map_entries(*map).len(),
        },
{
    match map.get_index(index) {
        Some((name, value)) => Some((name, *value)),
        None => None,
    }
}

/// `IndexMap::len`: the number of entries.
#[verifier::external_body]
fn index_map_len(map: &IndexMap<String, usize>) -> (r: usize)
    ensures
        r == index_map_entries(*map).len(),
{
    map.len()
}

/// `IndexMap::clone`: the copy holds the same entries in the same order.
#[verifier::external_body]
fn index_map_clone(map: &IndexMap<String, usize>) -> (r: IndexMap<String, usize>)
    ensures
        index_map_entries(r) == index_map_entries(*map),
{
    map.clone()
}

/// Names with the IDs they stand for, in the order in which the names were
/// added.
pub struct NameIndex {
    pub inner: IndexMap<String, usize>,
}

impl NameIndex {
    /// The names with their IDs, in order.
    pub open spec fn entries(&self) -> Seq<(Seq<char>, usize)> {
        index_map_entries(self.inner)
    }

    /// The IDs, in order.
    pub open spec fn ids(&self) -> Seq<usize> {
        Seq::new(self.entries().len(), |i: int| self.entries()[i].1)
    }

    /// The names, in order.
    pub open spec fn names(&self) -> Seq<Seq<char>> {
        Seq::new(self.entries().len(), |i: int| self.entries()[i].0)
    }

    /// No name occurs twice.
    pub open spec fn wf(&self) -> bool {
        names_distinct(self.entries())
    }

    /// The ID that `name` stands for, if any.
    pub open spec fn lookup(&self, name: Seq<char>) -> Option<usize> {
        value_of_name(self.entries(), name)
    }

    pub fn new() -> (r: Self)
        ensures
            r.wf(),
            r.entries() == Seq::<(Seq<char>, usize)>::empty(),
    {
        NameIndex { inner: index_map_new() }
    }

    /// Lets `name` stand for `id`. A name that is new becomes the last entry;
    /// a name that is there keeps its place.
    pub fn insert(&mut self, name: String, id: usize)
        requires
            old(self).wf(),
        ensures
            final(self).wf(),
            final(self).entries() == with_entry(old(self).entries(), name@, id),
            final(self).lookup(name@) == Some(id),
            forall|other: Seq<char>|
                other != name@ ==> #[trigger] final(self).lookup(other) == old(self).lookup(other),
    {
        proof {
            lemma_with_entry(self.entries(), name@, id);
        }
        index_map_insert(&mut self.inner, name, id);
    }

    pub fn get(&self, name: &str) -> (r: Option<usize>)
        requires
            self.wf(),
        ensures
            r == self.lookup(name@),
    {
        let r = index_map_get(&self.inner, name);
        proof {
            if let Some(value) = r {
                let i = choose|i: int|
                    0 <= i < self.entries().len() && #[trigger] self.entries()[i] == (name@, value);
                lemma_value_of_name(self.entries(), i);
            }
        }
        r
    }

    pub fn contains_key(&self, name: &str) -> (r: bool)
        requires
            self.wf(),
        ensures
            r == holds_name(self.entries(), name@),
            r == self.lookup(name@).is_some(),
    {
        self.get(name).is_some()
    }

    pub fn len(&self) -> (r: usize)
        ensures
            r == self.entries().len(),
    {
        index_map_len(&self.inner)
    }

    pub fn is_empty(&self) -> (r: bool)
        ensures
            r == (self.entries().len() == 0),
    {
        index_map_len(&self.inner) == 0
    }

    /// The ID of the entry at place `index`, if there are that many entries.
    pub fn id_at(&self, index: usize) -> (r: Option<usize>)
        ensures
            r == (if index < self.entries().len() {
                Some(self.entries()[index as int].1)
            } else {
                None
            }),
    {
        match index_map_get_index(&self.inner, index) {
            Some(entry) => Some(entry.1),
            None => None,
        }
    }

    /// The IDs from place `from` on, in order.
    pub fn ids_from(&self, from: usize) -> (r: Vec<usize>)
        requires
            from <= self.entries().len(),
        ensures
            r@ == self.ids().subrange(from as int, self.entries().len() as int),
    {
        let mut out: Vec<usize> = Vec::new();
        let len = self.len();
        let mut i: usize = from;
        while i < len
            invariant
                len == self.entries().len(),
                from <= i <= len,
                out@ == self.ids().subrange(from as int, i as int),
            decreases len - i,
        {
            match self.id_at(i) {
                Some(id) => {
                    out.push(id);
                },
                None => {},
            }
            assert(out@ =~= self.ids().subrange(from as int, i + 1));
            i += 1;
        }
        out
    }

    /// All IDs, in order.
    pub fn values(&self) -> (r: Vec<usize>)
        ensures
            r@ == self.ids(),
    {
        let r = self.ids_from(0);
        assert(r@ =~= self.ids());
        r
    }

    /// All names, in order.
    pub fn keys(&self) -> (r: Vec<String>)
        ensures
            r@.len() == self.entries().len(),
            forall|i: int| 0 <= i < r@.len() ==> r@[i]@ == self.entries()[i].0,
    {
        let mut out: Vec<String> = Vec::new();
        let len = self.len();
        let mut i: usize = 0;
        while i < len
            invariant
                len == self.entries().len(),
                i <= len,
                out@.len() == i,
                forall|j: int| 0 <= j < i ==> out@[j]@ == self.entries()[j].0,
            decreases len - i,
        {
            match index_map_get_index(&self.inner, i) {
                Some(entry) => {
                    out.push(entry.0.clone());
                },
                None => {},
            }
            i += 1;
        }
        out
    }

    /// A copy with the same entries in the same order.
    pub fn duplicate(&self) -> (r: Self)
        ensures
            r.entries() == self.entries(),
    {
        NameIndex { inner: index_map_clone(&self.inner) }
    }
}

} // verus!
