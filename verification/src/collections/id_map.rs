//! A map from integer IDs to values, kept sorted by ID.
use vstd::prelude::*;

verus! {

/// A map keyed by an ID. The entries are kept in ascending order of their
/// keys, so that two maps that hold the same entries are equal as values and
/// are walked in the same order, however they were filled.
#[derive(Clone, Debug, PartialEq, Eq)]
pub struct IdMap<V> {
    pub keys: Vec<usize>,
    pub values: Vec<V>,
}

/// The place of `key` in `keys`, for a key that occurs.
pub open spec fn place_of(keys: Seq<usize>, key: usize) -> int {
    choose|i: int| 0 <= i < keys.len() && keys[i] == key
}

/// Each key is smaller than the one after it.
pub open spec fn ascending(keys: Seq<usize>) -> bool {
    forall|i: int, j: int| 0 <= i < j < keys.len() ==> keys[i] < keys[j]
}

/// What a sorted list of keys with their values holds, as a map.
pub open spec fn as_map<V>(keys: Seq<usize>, values: Seq<V>) -> Map<usize, V> {
    Map::new(|k: usize| keys.contains(k), |k: usize| values[place_of(keys, k)])
}

/// In an ascending list a key has one place only.
pub proof fn lemma_place_of(keys: Seq<usize>, i: int)
    requires
        ascending(keys),
        0 <= i < keys.len(),
    ensures
        place_of(keys, keys[i]) == i,
        keys.contains(keys[i]),
{
    let p = place_of(keys, keys[i]);
    if p < i {
        assert(keys[p] < keys[i]);
    } else if i < p {
        assert(keys[i] < keys[p]);
    }
}

/// Two ascending lists that hold the same map are the same list.
pub proof fn lemma_same_map_same_entries<V>(
    keys1: Seq<usize>,
    values1: Seq<V>,
    keys2: Seq<usize>,
    values2: Seq<V>,
)
    requires
        ascending(keys1),
        ascending(keys2),
        keys1.len() == values1.len(),
        keys2.len() == values2.len(),
        as_map(keys1, values1) == as_map(keys2, values2),
    ensures
        keys1 == keys2,
        values1 == values2,
    decreases keys1.len(),
{
    let m1 = as_map(keys1, values1);
    let m2 = as_map(keys2, values2);
    if keys1.len() == 0 {
        if keys2.len() > 0 {
            lemma_place_of(keys2, 0);
            assert(m2.contains_key(keys2[0]));
            assert(m1.contains_key(keys2[0]));
        }
        assert(keys1 =~= keys2);
        assert(values1 =~= values2);
    } else {
        let n1 = keys1.len() - 1;
        lemma_place_of(keys1, n1);
        assert(m1.contains_key(keys1[n1]));
        assert(m2.contains_key(keys1[n1]));
        assert(keys2.contains(keys1[n1]));
        let n2 = keys2.len() - 1;
        lemma_place_of(keys2, n2);
        assert(m2.contains_key(keys2[n2]));
        assert(m1.contains_key(keys2[n2]));
        assert(keys1.contains(keys2[n2]));
        // The largest keys of both lists are the same key.
        let at2 = place_of(keys2, keys1[n1]);
        let at1 = place_of(keys1, keys2[n2]);
        assert(keys1[n1] == keys2[n2]) by {
            if at2 < n2 {
                assert(keys2[at2] < keys2[n2]);
            }
            if at1 < n1 {
                assert(keys1[at1] < keys1[n1]);
            }
        }
        assert(values1[n1] == values2[n2]) by {
            assert(m1[keys1[n1]] == values1[n1]);
            assert(m2[keys2[n2]] == values2[n2]);
        }
        let k1 = keys1.drop_last();
        let v1 = values1.drop_last();
        let k2 = keys2.drop_last();
        let v2 = values2.drop_last();
        assert(as_map(k1, v1) =~= as_map(k2, v2)) by {
            assert forall|k: usize| k1.contains(k) implies k2.contains(k) && as_map(k1, v1)[k]
                == as_map(k2, v2)[k] by {
                let i = choose|i: int| 0 <= i < k1.len() && k1[i] == k;
                assert(keys1[i] == k);
                lemma_place_of(keys1, i);
                lemma_place_of(k1, i);
                assert(m2.contains_key(k));
                let j = place_of(keys2, k);
                assert(keys1[i] < keys1[n1]);
                assert(j != n2);
                assert(k2[j] == k);
                lemma_place_of(keys2, j);
                lemma_place_of(k2, j);
                assert(m1[k] == values1[i]);
                assert(m2[k] == values2[j]);
            }
            assert forall|k: usize| k2.contains(k) implies k1.contains(k) by {
                let j = choose|j: int| 0 <= j < k2.len() && k2[j] == k;
                assert(keys2[j] == k);
                lemma_place_of(keys2, j);
                assert(m1.contains_key(k));
                let i = place_of(keys1, k);
                assert(keys2[j] < keys2[n2]);
                assert(i != n1);
                assert(k1[i] == k);
            }
        }
        lemma_same_map_same_entries(k1, v1, k2, v2);
        assert(keys1 =~= k1.push(keys1[n1]));
        assert(keys2 =~= k2.push(keys2[n2]));
        assert(values1 =~= v1.push(values1[n1]));
        assert(values2 =~= v2.push(values2[n2]));
    }
}

impl<V> View for IdMap<V> {
    type V = Map<usize, V>;

    open spec fn view(&self) -> Map<usize, V> {
        as_map(self.keys@, self.values@)
    }
}

impl<V> IdMap<V> {
    /// There is one value for each key, and the keys ascend.
    pub open spec fn wf(&self) -> bool {
        &&& self.keys.len() == self.values.len()
        &&& ascending(self.keys@)
    }

    pub fn new() -> (r: Self)
        ensures
            r.wf(),
            r@ == Map::<usize, V>::empty(),
            r.keys@.len() == 0,
    {
        let r = IdMap { keys: Vec::new(), values: Vec::new() };
        assert(r@ =~= Map::<usize, V>::empty());
        r
    }

    /// The place of the first key that is not below `key`, or the number of
    /// keys where every key is below it.
    fn search(&self, key: usize) -> (r: usize)
        requires
            self.wf(),
        ensures
            r <= self.keys.len(),
            forall|i: int| 0 <= i < r ==> self.keys[i] < key,
            forall|i: int| r <= i < self.keys.len() ==> self.keys[i] >= key,
    {
        let mut i: usize = 0;
        while i < self.keys.len() && self.keys[i] < key
            invariant
                self.wf(),
                i <= self.keys.len(),
                forall|j: int| 0 <= j < i ==> self.keys[j] < key,
            decreases self.keys.len() - i,
        {
            i += 1;
        }
        assert forall|j: int| i <= j < self.keys.len() implies self.keys[j] >= key by {
            if i < j {
                assert(self.keys[i as int] < self.keys[j]);
            }
        }
        i
    }

    /// Gives `key` the value `value`, in place of the value it had, if any.
    pub fn insert(&mut self, key: usize, value: V)
        requires
            old(self).wf(),
        ensures
            final(self).wf(),
            final(self)@ == old(self)@.insert(key, value),
    {
        let ghost before = *self;
        let at = self.search(key);
        if at < self.keys.len() && self.keys[at] == key {
            self.values.set(at, value);
            proof {
                assert forall|k: usize| #[trigger] self.keys@.contains(k) implies self@[k] == (if k
                    == key {
                    value
                } else {
                    before@[k]
                }) by {
                    let i = choose|i: int| 0 <= i < self.keys.len() && self.keys[i] == k;
                    lemma_place_of(self.keys@, i);
                }
                assert(self.keys@.contains(key)) by {
                    lemma_place_of(self.keys@, at as int);
                }
                assert(self@ =~= before@.insert(key, value));
            }
        } else {
            self.keys.insert(at, key);
            self.values.insert(at, value);
            proof {
                let keys = self.keys@;
                assert(keys.len() == before.keys@.len() + 1);
                assert forall|i: int| 0 <= i < keys.len() implies keys[i] == (if i < at {
                    before.keys@[i]
                } else if i == at {
                    key
                } else {
                    before.keys@[i - 1]
                }) by {}
                assert forall|i: int| 0 <= i < keys.len() implies self.values@[i] == (if i < at {
                    before.values@[i]
                } else if i == at {
                    value
                } else {
                    before.values@[i - 1]
                }) by {}
                assert(ascending(keys)) by {
                    assert forall|i: int, j: int| 0 <= i < j < keys.len() implies keys[i]
                        < keys[j] by {
                        if i < at && j > at {
                            assert(before.keys@[i] < key);
                            assert(before.keys@[j - 1] >= key);
                        } else if i < at && j < at {
                            assert(before.keys@[i] < before.keys@[j]);
                        } else if i > at {
                            assert(before.keys@[i - 1] < before.keys@[j - 1]);
                        } else if i == at {
                            assert(before.keys@[j - 1] >= key);
                            assert(before.keys@[j - 1] != key) by {
                                if j - 1 > at {
                                    assert(before.keys@[at as int] < before.keys@[j - 1]);
                                }
                            }
                        }
                    }
                }
                assert forall|k: usize| #[trigger] keys.contains(k) implies (k == key
                    || before.keys@.contains(k)) && self@[k] == (if k == key {
                    value
                } else {
                    before@[k]
                }) by {
                    let i = choose|i: int| 0 <= i < keys.len() && keys[i] == k;
                    lemma_place_of(keys, i);
                    if i < at {
                        lemma_place_of(before.keys@, i);
                    } else if i > at {
                        lemma_place_of(before.keys@, i - 1);
                    }
                }
                assert forall|k: usize| before.keys@.contains(k) implies keys.contains(k) by {
                    let i = choose|i: int| 0 <= i < before.keys@.len() && before.keys@[i] == k;
                    if i < at {
                        assert(keys[i] == k);
                    } else {
                        assert(keys[i + 1] == k);
                    }
                }
                assert(keys.contains(key)) by {
                    assert(keys[at as int] == key);
                }
                assert(self@ =~= before@.insert(key, value));
            }
        }
    }

    /// The value of `key`, if it has one.
    pub fn get(&self, key: usize) -> (r: Option<&V>)
        requires
            self.wf(),
        ensures
            match r {
                Some(v) => self@.contains_key(key) && *v == self@[key],
                None => !self@.contains_key(key),
            },
    {
        let at = self.search(key);
        if at < self.keys.len() && self.keys[at] == key {
            proof {
                lemma_place_of(self.keys@, at as int);
            }
            Some(&self.values[at])
        } else {
            proof {
                if self.keys@.contains(key) {
                    let i = choose|i: int| 0 <= i < self.keys.len() && self.keys[i] == key;
                    assert(false);
                }
            }
            None
        }
    }

    pub fn contains_key(&self, key: usize) -> (r: bool)
        requires
            self.wf(),
        ensures
            r == self@.contains_key(key),
    {
        self.get(key).is_some()
    }

    /// The number of keys.
    pub fn len(&self) -> (r: usize)
        ensures
            r == self.keys.len(),
    {
        self.keys.len()
    }

    pub fn is_empty(&self) -> (r: bool)
        requires
            self.wf(),
        ensures
            r == (self.keys.len() == 0),
            r == (self@ == Map::<usize, V>::empty()),
    {
        proof {
            if self.keys.len() > 0 {
                lemma_place_of(self.keys@, 0);
                assert(self@.contains_key(self.keys[0]));
            } else {
                assert(self@ =~= Map::<usize, V>::empty());
            }
        }
        self.keys.len() == 0
    }

    /// The key at place `index`, counting in ascending order of the keys.
    pub fn key_at(&self, index: usize) -> (r: usize)
        requires
            self.wf(),
            index < self.keys.len(),
        ensures
            r == self.keys[index as int],
            self@.contains_key(r),
    {
        proof {
            lemma_place_of(self.keys@, index as int);
        }
        self.keys[index]
    }

    /// Replaces the value at place `index`, counting in ascending order of the
    /// keys.
    pub fn set_value_at(&mut self, index: usize, value: V)
        requires
            old(self).wf(),
            index < old(self).keys.len(),
        ensures
            final(self).wf(),
            final(self).keys@ == old(self).keys@,
            final(self).values@ == old(self).values@.update(index as int, value),
            final(self)@ == old(self)@.insert(old(self).keys[index as int], value),
    {
        let ghost before = *self;
        self.values.set(index, value);
        proof {
            lemma_place_of(self.keys@, index as int);
            assert forall|k: usize| #[trigger] self.keys@.contains(k) implies self@[k] == (if k
                == self.keys[index as int] {
                value
            } else {
                before@[k]
            }) by {
                let i = choose|i: int| 0 <= i < self.keys.len() && self.keys[i] == k;
                lemma_place_of(self.keys@, i);
            }
            assert(self@ =~= before@.insert(self.keys[index as int], value));
        }
    }

    /// The value at place `index`, counting in ascending order of the keys.
    pub fn value_at(&self, index: usize) -> (r: &V)
        requires
            self.wf(),
            index < self.keys.len(),
        ensures
            *r == self.values[index as int],
            *r == self@[self.keys[index as int]],
    {
        proof {
            lemma_place_of(self.keys@, index as int);
        }
        &self.values[index]
    }
}

impl<V: Copy> IdMap<V> {
    /// A copy that holds the same entries.
    pub fn duplicate(&self) -> (r: Self)
        requires
            self.wf(),
        ensures
            r.wf(),
            r.keys@ == self.keys@,
            r.values@ == self.values@,
            r@ == self@,
    {
        let mut keys: Vec<usize> = Vec::new();
        let mut values: Vec<V> = Vec::new();
        let mut i: usize = 0;
        while i < self.keys.len()
            invariant
                self.wf(),
                i <= self.keys.len(),
                keys@ == self.keys@.subrange(0, i as int),
                values@ == self.values@.subrange(0, i as int),
            decreases self.keys.len() - i,
        {
            keys.push(self.keys[i]);
            values.push(self.values[i]);
            assert(keys@ =~= self.keys@.subrange(0, i + 1));
            assert(values@ =~= self.values@.subrange(0, i + 1));
            i += 1;
        }
        assert(keys@ =~= self.keys@);
        assert(values@ =~= self.values@);
        IdMap { keys, values }
    }

    /// Adds the entries of `from`. Where both maps have a key, the value of
    /// `from` replaces the one that was there.
    pub fn absorb(&mut self, from: &IdMap<V>)
        requires
            old(self).wf(),
            from.wf(),
        ensures
            final(self).wf(),
            final(self)@ == old(self)@.union_prefer_right(from@),
    {
        let ghost before = *self;
        let mut i: usize = 0;
        while i < from.keys.len()
            invariant
                self.wf(),
                from.wf(),
                i <= from.keys.len(),
                forall|k: usize| #[trigger]
                    self@.contains_key(k) <==> before@.contains_key(k) || exists|j: int|
                        0 <= j < i && from.keys[j] == k,
                forall|k: usize| #[trigger]
                    self@.contains_key(k) ==> self@[k] == (if exists|j: int|
                        0 <= j < i && from.keys[j] == k {
                        from@[k]
                    } else {
                        before@[k]
                    }),
            decreases from.keys.len() - i,
        {
            let key = from.key_at(i);
            let value = *from.value_at(i);
            let ghost mid = *self;
            self.insert(key, value);
            proof {
                assert forall|k: usize| #[trigger]
                    self@.contains_key(k) implies (before@.contains_key(k) || exists|j: int|
                    0 <= j < i + 1 && from.keys[j] == k) && self@[k] == (if exists|j: int|
                    0 <= j < i + 1 && from.keys[j] == k {
                    from@[k]
                } else {
                    before@[k]
                }) by {
                    if k == key {
                        assert(from.keys[i as int] == k);
                    } else {
                        assert(mid@.contains_key(k));
                        if exists|j: int| 0 <= j < i + 1 && from.keys[j] == k {
                            let j = choose|j: int| 0 <= j < i + 1 && from.keys[j] == k;
                            assert(j < i);
                        }
                    }
                }
                assert forall|k: usize|
                    (before@.contains_key(k) || exists|j: int|
                        0 <= j < i + 1 && from.keys[j] == k) implies #[trigger] self@.contains_key(
                    k,
                ) by {
                    if k != key {
                        if !before@.contains_key(k) {
                            let j = choose|j: int| 0 <= j < i + 1 && from.keys[j] == k;
                            assert(j < i);
                        }
                        assert(mid@.contains_key(k));
                    }
                }
            }
            i += 1;
        }
        proof {
            let target = before@.union_prefer_right(from@);
            assert forall|k: usize| from@.contains_key(k) <==> exists|j: int|
                0 <= j < from.keys.len() && from.keys[j] == k by {
                if from@.contains_key(k) {
                    let j = place_of(from.keys@, k);
                    assert(from.keys[j] == k);
                }
                if exists|j: int| 0 <= j < from.keys.len() && from.keys[j] == k {
                    let j = choose|j: int| 0 <= j < from.keys.len() && from.keys[j] == k;
                    lemma_place_of(from.keys@, j);
                }
            }
            assert(self@ =~= target);
        }
    }
}

} // verus!
