//! A map keyed by lists, such as the list of shapes that a specialization is
//! made for.
use vstd::prelude::*;
use crate::type_ref::{Shape, TypeId};

verus! {

/// An element of a list that is used as a key: two elements can be compared.
pub trait KeyPart: Copy {
    fn same(&self, other: &Self) -> (r: bool)
        ensures
            r == (*self == *other),
    ;
}

impl KeyPart for Shape {
    fn same(&self, other: &Shape) -> (r: bool) {
        *self == *other
    }
}

impl KeyPart for TypeId {
    fn same(&self, other: &TypeId) -> (r: bool) {
        *self == *other
    }
}

/// The lists of a table as plain sequences.
pub open spec fn lists<K>(keys: Seq<Vec<K>>) -> Seq<Seq<K>> {
    Seq::new(keys.len(), |i: int| keys[i]@)
}

/// No list occurs twice.
pub open spec fn lists_distinct<K>(keys: Seq<Seq<K>>) -> bool {
    forall|i: int, j: int| 0 <= i < j < keys.len() ==> keys[i] != keys[j]
}

/// The place of `key` among `keys`, for a key that occurs.
pub open spec fn place_of_list<K>(keys: Seq<Seq<K>>, key: Seq<K>) -> int {
    choose|i: int| 0 <= i < keys.len() && keys[i] == key
}

/// What a table of distinct lists with their values holds, as a map.
pub open spec fn table_map<K, V>(keys: Seq<Seq<K>>, values: Seq<V>) -> Map<Seq<K>, V> {
    Map::new(|k: Seq<K>| keys.contains(k), |k: Seq<K>| values[place_of_list(keys, k)])
}

/// Among distinct lists a list has one place only.
pub proof fn lemma_place_of_list<K>(keys: Seq<Seq<K>>, i: int)
    requires
        lists_distinct(keys),
        0 <= i < keys.len(),
    ensures
        place_of_list(keys, keys[i]) == i,
        keys.contains(keys[i]),
{
    let p = place_of_list(keys, keys[i]);
    if p < i {
        assert(keys[p] != keys[i]);
    } else if i < p {
        assert(keys[i] != keys[p]);
    }
}

/// True if both lists hold the same elements in the same order.
pub fn same_list<K: KeyPart>(a: &[K], b: &[K]) -> (r: bool)
    ensures
        r == (a@ == b@),
{
    if a.len() != b.len() {
        return false;
    }
    let mut i: usize = 0;
    while i < a.len()
        invariant
            a@.len() == b@.len(),
            i <= a@.len(),
            forall|j: int| 0 <= j < i ==> a@[j] == b@[j],
        decreases a@.len() - i,
    {
        if !a[i].same(&b[i]) {
            return false;
        }
        i += 1;
    }
    assert(a@ =~= b@);
    true
}

/// A map from lists to values. The entries are kept in the order in which
/// their keys were first inserted.
#[derive(Clone, Debug)]
pub struct SeqMap<K, V> {
    pub keys: Vec<Vec<K>>,
    pub values: Vec<V>,
}

impl<K, V> View for SeqMap<K, V> {
    type V = Map<Seq<K>, V>;

    open spec fn view(&self) -> Map<Seq<K>, V> {
        table_map(lists(self.keys@), self.values@)
    }
}

impl<K: KeyPart, V: Copy> SeqMap<K, V> {
    /// There is one value for each key, and no key occurs twice.
    pub open spec fn wf(&self) -> bool {
        &&& self.keys.len() == self.values.len()
        &&& lists_distinct(lists(self.keys@))
    }

    /// The value of `key`, if it has one.
    pub open spec fn lookup(&self, key: Seq<K>) -> Option<V> {
        if self@.contains_key(key) {
            Some(self@[key])
        } else {
            None
        }
    }

    pub fn new() -> (r: Self)
        ensures
            r.wf(),
            r@ == Map::<Seq<K>, V>::empty(),
            r.values@.len() == 0,
    {
        let r = SeqMap { keys: Vec::new(), values: Vec::new() };
        assert(r@ =~= Map::<Seq<K>, V>::empty());
        r
    }

    /// The place of `key`, or the number of keys if it has none.
    fn search(&self, key: &[K]) -> (r: usize)
        requires
            self.wf(),
        ensures
            r <= self.keys.len(),
            r < self.keys.len() ==> self.keys[r as int]@ == key@,
            r == self.keys.len() ==> !lists(self.keys@).contains(key@),
    {
        let mut i: usize = 0;
        while i < self.keys.len()
            invariant
                self.wf(),
                i <= self.keys.len(),
                forall|j: int| 0 <= j < i ==> lists(self.keys@)[j] != key@,
            decreases self.keys.len() - i,
        {
            if same_list(self.keys[i].as_slice(), key) {
                return i;
            }
            assert(lists(self.keys@)[i as int] == self.keys[i as int]@);
            i += 1;
        }
        i
    }

    /// Gives `key` the value `value`, in place of the value it had, if any.
    pub fn insert(&mut self, key: Vec<K>, value: V)
        requires
            old(self).wf(),
        ensures
            final(self).wf(),
            final(self)@ == old(self)@.insert(key@, value),
            final(self).values@ == (if old(self)@.contains_key(key@) {
                old(self).values@.update(place_of_list(lists(old(self).keys@), key@), value)
            } else {
                old(self).values@.push(value)
            }),
    {
        let ghost before = *self;
        let ghost old_keys = lists(before.keys@);
        let at = self.search(key.as_slice());
        if at < self.keys.len() {
            self.values.set(at, value);
            proof {
                let keys = lists(self.keys@);
                assert(keys =~= old_keys);
                assert(keys[at as int] == key@);
                lemma_place_of_list(keys, at as int);
                assert forall|k: Seq<K>| #[trigger] keys.contains(k) implies self@[k] == (if k
                    == key@ {
                    value
                } else {
                    before@[k]
                }) by {
                    let i = choose|i: int| 0 <= i < keys.len() && keys[i] == k;
                    lemma_place_of_list(keys, i);
                }
                assert(self@ =~= before@.insert(key@, value));
            }
        } else {
            self.keys.push(key);
            self.values.push(value);
            proof {
                let keys = lists(self.keys@);
                assert(keys =~= old_keys.push(key@));
                assert(lists_distinct(keys)) by {
                    assert forall|i: int, j: int| 0 <= i < j < keys.len() implies keys[i]
                        != keys[j] by {
                        if j == old_keys.len() {
                            assert(old_keys[i] == keys[i]);
                        } else {
                            assert(old_keys[i] != old_keys[j]);
                        }
                    }
                }
                assert(keys[at as int] == key@);
                lemma_place_of_list(keys, at as int);
                assert forall|k: Seq<K>| #[trigger] keys.contains(k) implies (k == key@
                    || old_keys.contains(k)) && self@[k] == (if k == key@ {
                    value
                } else {
                    before@[k]
                }) by {
                    let i = choose|i: int| 0 <= i < keys.len() && keys[i] == k;
                    lemma_place_of_list(keys, i);
                    if i < at {
                        assert(old_keys[i] == k);
                        lemma_place_of_list(old_keys, i);
                    }
                }
                assert forall|k: Seq<K>| old_keys.contains(k) implies keys.contains(k) by {
                    let i = choose|i: int| 0 <= i < old_keys.len() && old_keys[i] == k;
                    assert(keys[i] == k);
                }
                assert(self@ =~= before@.insert(key@, value));
            }
        }
    }

    pub fn get(&self, key: &[K]) -> (r: Option<V>)
        requires
            self.wf(),
        ensures
            r == self.lookup(key@),
    {
        let at = self.search(key);
        if at < self.keys.len() {
            proof {
                assert(lists(self.keys@)[at as int] == key@);
                lemma_place_of_list(lists(self.keys@), at as int);
            }
            Some(self.values[at])
        } else {
            None
        }
    }

    /// A copy that holds the same entries in the same order.
    pub fn duplicate(&self) -> (r: Self)
        requires
            self.wf(),
        ensures
            r.wf(),
            lists(r.keys@) == lists(self.keys@),
            r.values@ == self.values@,
            r@ == self@,
    {
        let mut keys: Vec<Vec<K>> = Vec::new();
        let mut values: Vec<V> = Vec::new();
        let mut i: usize = 0;
        while i < self.keys.len()
            invariant
                self.wf(),
                i <= self.keys.len(),
                lists(keys@) == lists(self.keys@).subrange(0, i as int),
                values@ == self.values@.subrange(0, i as int),
            decreases self.keys.len() - i,
        {
            let mut key: Vec<K> = Vec::new();
            let mut j: usize = 0;
            while j < self.keys[i].len()
                invariant
                    i < self.keys.len(),
                    j <= self.keys[i as int]@.len(),
                    key@ == self.keys[i as int]@.subrange(0, j as int),
                decreases self.keys[i as int]@.len() - j,
            {
                key.push(self.keys[i][j]);
                assert(key@ =~= self.keys[i as int]@.subrange(0, j + 1));
                j += 1;
            }
            assert(key@ =~= self.keys[i as int]@);
            let ghost copied = lists(keys@);
            keys.push(key);
            values.push(self.values[i]);
            assert(lists(keys@) =~= copied.push(key@));
            assert(lists(self.keys@)[i as int] == self.keys[i as int]@);
            assert(lists(keys@) =~= lists(self.keys@).subrange(0, i + 1));
            assert(values@ =~= self.values@.subrange(0, i + 1));
            i += 1;
        }
        assert(lists(keys@) =~= lists(self.keys@));
        assert(values@ =~= self.values@);
        SeqMap { keys, values }
    }

    /// The number of keys.
    pub fn len(&self) -> (r: usize)
        ensures
            r == self.values@.len(),
    {
        self.values.len()
    }

    /// All values, in the order in which their keys were first inserted.
    pub fn values(&self) -> (r: Vec<V>)
        ensures
            r@ == self.values@,
    {
        let mut out: Vec<V> = Vec::new();
        let mut i: usize = 0;
        while i < self.values.len()
            invariant
                i <= self.values.len(),
                out@ == self.values@.subrange(0, i as int),
            decreases self.values.len() - i,
        {
            out.push(self.values[i]);
            assert(out@ =~= self.values@.subrange(0, i + 1));
            i += 1;
        }
        assert(out@ =~= self.values@);
        out
    }
}

} // verus!
