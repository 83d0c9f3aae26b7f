//! A map from names to values that remembers the order in which the names
//! were first inserted.
use vstd::prelude::*;
use vstd::hash_map::StringHashMap;

verus! {

/// A map keyed by strings. Lookups go through a hash map; the names are also
/// kept in the order of their first insertion, so that the values can be walked
/// in an order that does not depend on how the names hash.
#[verifier::reject_recursive_types(V)]
pub struct NameMap<V> {
    pub map: StringHashMap<V>,
    pub names: Vec<String>,
}

impl<V> View for NameMap<V> {
    type V = Map<Seq<char>, V>;

    open spec fn view(&self) -> Map<Seq<char>, V> {
        self.map@
    }
}

impl<V: Copy> NameMap<V> {
    /// The names in the order of their first insertion.
    pub open spec fn order(&self) -> Seq<Seq<char>> {
        self.names@.map_values(|s: String| s@)
    }

    /// The names that are kept in order are exactly the keys of the map, each
    /// once.
    pub open spec fn wf(&self) -> bool {
        &&& forall|i: int, j: int|
            0 <= i < j < self.order().len() ==> self.order()[i] != self.order()[j]
        &&& forall|i: int|
            0 <= i < self.order().len() ==> self@.contains_key(#[trigger] self.order()[i])
        &&& forall|k: Seq<char>| #[trigger]
            self@.contains_key(k) ==> exists|i: int|
                0 <= i < self.order().len() && self.order()[i] == k
    }

    /// The value of `name`, if it has one.
    pub open spec fn lookup(&self, name: Seq<char>) -> Option<V> {
        if self@.contains_key(name) {
            Some(self@[name])
        } else {
            None
        }
    }

    /// The values in the order in which their names were first inserted.
    pub open spec fn ordered_values(&self) -> Seq<V> {
        Seq::new(self.order().len(), |i: int| self@[self.order()[i]])
    }

    pub fn new() -> (r: Self)
        ensures
            r.wf(),
            r@ == Map::<Seq<char>, V>::empty(),
            r.order() == Seq::<Seq<char>>::empty(),
    {
        let r = NameMap { map: StringHashMap::new(), names: Vec::new() };
        assert(r.order() =~= Seq::<Seq<char>>::empty());
        r
    }

    /// Gives `name` the value `value`. A name that is new goes to the end of
    /// the order; a name that had a value keeps its place.
    pub fn insert(&mut self, name: String, value: V)
        requires
            old(self).wf(),
        ensures
            final(self).wf(),
            final(self)@ == old(self)@.insert(name@, value),
            final(self).order() == (if old(self)@.contains_key(name@) {
                old(self).order()
            } else {
                old(self).order().push(name@)
            }),
    {
        let ghost before = *self;
        if !self.map.contains_key(name.as_str()) {
            self.names.push(name.clone());
            assert(self.order() =~= before.order().push(name@));
        } else {
            assert(self.order() =~= before.order());
        }
        self.map.insert(name, value);
        proof {
            let order = self.order();
            assert forall|k: Seq<char>| #[trigger] self@.contains_key(k) implies exists|i: int|
                0 <= i < order.len() && order[i] == k by {
                if k == name@ {
                    if before@.contains_key(name@) {
                        let i = choose|i: int| 0 <= i < before.order().len() && before.order()[i]
                            == k;
                        assert(order[i] == k);
                    } else {
                        assert(order[order.len() - 1] == k);
                    }
                } else {
                    assert(before@.contains_key(k));
                    let i = choose|i: int| 0 <= i < before.order().len() && before.order()[i] == k;
                    assert(order[i] == k);
                }
            }
            assert forall|i: int, j: int| 0 <= i < j < order.len() implies order[i] != order[j] by {
                if j == before.order().len() {
                    assert(before@.contains_key(before.order()[i]));
                }
            }
        }
    }

    pub fn get(&self, name: &str) -> (r: Option<V>)
        ensures
            r == self.lookup(name@),
    {
        match self.map.get(name) {
            Some(v) => Some(*v),
            None => None,
        }
    }

    pub fn contains_key(&self, name: &str) -> (r: bool)
        ensures
            r == self@.contains_key(name@),
    {
        self.map.contains_key(name)
    }

    pub fn len(&self) -> (r: usize)
        ensures
            r == self.order().len(),
    {
        self.names.len()
    }

    pub fn is_empty(&self) -> (r: bool)
        ensures
            r == (self.order().len() == 0),
    {
        self.names.len() == 0
    }

    /// The name at place `index` of the order, with its value.
    pub fn entry_at(&self, index: usize) -> (r: (&String, V))
        requires
            self.wf(),
            index < self.order().len(),
        ensures
            r.0@ == self.order()[index as int],
            r.1 == self@[self.order()[index as int]],
    {
        let name = &self.names[index];
        assert(name@ == self.order()[index as int]);
        match self.map.get(name.as_str()) {
            Some(v) => (name, *v),
            None => {
                proof {
                    assert(self@.contains_key(self.order()[index as int]));
                }
                unreached()
            },
        }
    }

    /// All values, in the order in which their names were first inserted.
    pub fn values(&self) -> (r: Vec<V>)
        requires
            self.wf(),
        ensures
            r@ == self.ordered_values(),
    {
        let mut out: Vec<V> = Vec::new();
        let mut i: usize = 0;
        while i < self.names.len()
            invariant
                self.wf(),
                i <= self.order().len(),
                self.order().len() == self.names.len(),
                out@.len() == i,
                forall|j: int| 0 <= j < i ==> out@[j] == self@[self.order()[j]],
            decreases self.names.len() - i,
        {
            let entry = self.entry_at(i);
            out.push(entry.1);
            i += 1;
        }
        assert(out@ =~= self.ordered_values());
        out
    }

    /// A copy of the map: the same names in the same order with the same
    /// values.
    pub fn duplicate(&self) -> (r: Self)
        requires
            self.wf(),
        ensures
            r.wf(),
            r@ == self@,
            r.order() == self.order(),
    {
        let mut out: NameMap<V> = NameMap::new();
        let mut i: usize = 0;
        while i < self.names.len()
            invariant
                self.wf(),
                out.wf(),
                i <= self.order().len(),
                self.order().len() == self.names.len(),
                out.order() == self.order().subrange(0, i as int),
                forall|k: Seq<char>| #[trigger]
                    out@.contains_key(k) ==> self@.contains_key(k) && out@[k] == self@[k],
            decreases self.names.len() - i,
        {
            let entry = self.entry_at(i);
            let ghost before = out;
            proof {
                if before@.contains_key(entry.0@) {
                    let j = choose|j: int|
                        0 <= j < before.order().len() && before.order()[j] == entry.0@;
                    assert(self.order()[j] == self.order()[i as int]);
                }
            }
            out.insert(entry.0.clone(), entry.1);
            assert(out.order() =~= self.order().subrange(0, i + 1));
            i += 1;
        }
        proof {
            assert(out.order() =~= self.order());
            assert forall|k: Seq<char>| self@.contains_key(k) implies out@.contains_key(k) by {
                let j = choose|j: int| 0 <= j < self.order().len() && self.order()[j] == k;
                assert(out@.contains_key(out.order()[j]));
            }
            assert(out@ =~= self@);
        }
        out
    }
}

} // verus!
