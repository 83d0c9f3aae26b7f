//! Type arguments (the types assigned to type parameters) and type bounds
//! (the tightened copies that stand in for type parameters).
use vstd::prelude::*;
use crate::collections::id_map::IdMap;
use crate::type_ref::{TraitInstance, TypeParameterId, TypeRef};

verus! {

/// Type parameters and the types assigned to them.
///
/// Parameters may be assigned in any order, and some may not be assigned at
/// all.
#[derive(Clone, Debug, Eq, PartialEq)]
pub struct TypeArguments {
    pub mapping: IdMap<TypeRef>,
}

impl View for TypeArguments {
    type V = Map<usize, TypeRef>;

    /// The assigned types, keyed by the number of the type parameter.
    open spec fn view(&self) -> Map<usize, TypeRef> {
        self.mapping@
    }
}

impl TypeArguments {
    pub open spec fn wf(&self) -> bool {
        self.mapping.wf()
    }

    /// The type assigned to `parameter`, if any.
    pub open spec fn lookup(&self, parameter: TypeParameterId) -> Option<TypeRef> {
        if self@.contains_key(parameter.0) {
            Some(self@[parameter.0])
        } else {
            None
        }
    }

    /// The number of parameters that have a type assigned.
    pub open spec fn spec_len(&self) -> nat {
        self.mapping.keys@.len()
    }

    /// The parameters with their types, in ascending order of the parameters.
    pub open spec fn ordered_pairs(&self) -> Seq<(TypeParameterId, TypeRef)> {
        Seq::new(
            self.mapping.keys@.len(),
            |i: int| (TypeParameterId(self.mapping.keys@[i]), self.mapping.values@[i]),
        )
    }

    pub fn new() -> (r: Self)
        ensures
            r.wf(),
            r@ == Map::<usize, TypeRef>::empty(),
            r.spec_len() == 0,
    {
        TypeArguments { mapping: IdMap::new() }
    }

    pub fn assign(&mut self, parameter: TypeParameterId, value: TypeRef)
        requires
            old(self).wf(),
        ensures
            final(self).wf(),
            final(self)@ == old(self)@.insert(parameter.0, value),
    {
        self.mapping.insert(parameter.0, value);
    }

    pub fn get(&self, parameter: TypeParameterId) -> (r: Option<TypeRef>)
        requires
            self.wf(),
        ensures
            r == self.lookup(parameter),
    {
        match self.mapping.get(parameter.0) {
            Some(value) => Some(*value),
            None => None,
        }
    }

    /// The parameters with their types, in ascending order of the parameters.
    pub fn pairs(&self) -> (r: Vec<(TypeParameterId, TypeRef)>)
        requires
            self.wf(),
        ensures
            r@ == self.ordered_pairs(),
    {
        let mut out: Vec<(TypeParameterId, TypeRef)> = Vec::new();
        let mut i: usize = 0;
        while i < self.mapping.len()
            invariant
                self.wf(),
                i <= self.mapping.keys@.len(),
                out@ == self.ordered_pairs().subrange(0, i as int),
            decreases self.mapping.keys@.len() - i,
        {
            out.push((TypeParameterId(self.mapping.key_at(i)), *self.mapping.value_at(i)));
            assert(out@ =~= self.ordered_pairs().subrange(0, i + 1));
            i += 1;
        }
        assert(out@ =~= self.ordered_pairs());
        out
    }

    /// The parameters with their types, as `pairs` gives them.
    pub fn iter(&self) -> (r: Vec<(TypeParameterId, TypeRef)>)
        requires
            self.wf(),
        ensures
            r@ == self.ordered_pairs(),
    {
        self.pairs()
    }

    /// The parameters that have a type assigned, in ascending order.
    pub fn keys(&self) -> (r: Vec<TypeParameterId>)
        requires
            self.wf(),
        ensures
            r@.len() == self.spec_len(),
            forall|i: int| 0 <= i < r@.len() ==> r@[i] == self.ordered_pairs()[i].0,
    {
        let mut out: Vec<TypeParameterId> = Vec::new();
        let mut i: usize = 0;
        while i < self.mapping.len()
            invariant
                self.wf(),
                i <= self.mapping.keys@.len(),
                out@.len() == i,
                forall|j: int| 0 <= j < i ==> out@[j] == self.ordered_pairs()[j].0,
            decreases self.mapping.keys@.len() - i,
        {
            out.push(TypeParameterId(self.mapping.key_at(i)));
            i += 1;
        }
        out
    }

    /// Assigns every type of `self` in `other` too, replacing what `other` had
    /// assigned to the same parameter.
    pub fn copy_into(&self, other: &mut Self)
        requires
            self.wf(),
            old(other).wf(),
        ensures
            final(other).wf(),
            final(other)@ == old(other)@.union_prefer_right(self@),
    {
        other.mapping.absorb(&self.mapping);
    }

    /// As `copy_into`, giving up `self`.
    pub fn move_into(self, other: &mut Self)
        requires
            self.wf(),
            old(other).wf(),
        ensures
            final(other).wf(),
            final(other)@ == old(other)@.union_prefer_right(self@),
    {
        other.mapping.absorb(&self.mapping);
    }

    /// Assigns in `target` the type of each of `parameters` to which `self`
    /// assigns one.
    pub fn copy_assigned_into(&self, parameters: Vec<TypeParameterId>, target: &mut Self)
        requires
            self.wf(),
            old(target).wf(),
        ensures
            final(target).wf(),
            forall|k: usize| #[trigger]
                final(target)@.contains_key(k) <==> old(target)@.contains_key(k) || (
                self@.contains_key(k) && parameters@.contains(TypeParameterId(k))),
            forall|k: usize| #[trigger]
                final(target)@.contains_key(k) ==> final(target)@[k] == (if self@.contains_key(k)
                    && parameters@.contains(TypeParameterId(k)) {
                    self@[k]
                } else {
                    old(target)@[k]
                }),
    {
        let ghost before = *target;
        let mut i: usize = 0;
        while i < parameters.len()
            invariant
                self.wf(),
                target.wf(),
                i <= parameters.len(),
                forall|k: usize| #[trigger]
                    target@.contains_key(k) <==> before@.contains_key(k) || (self@.contains_key(k)
                        && parameters@.subrange(0, i as int).contains(TypeParameterId(k))),
                forall|k: usize| #[trigger]
                    target@.contains_key(k) ==> target@[k] == (if self@.contains_key(k)
                        && parameters@.subrange(0, i as int).contains(TypeParameterId(k)) {
                        self@[k]
                    } else {
                        before@[k]
                    }),
            decreases parameters.len() - i,
        {
            let param = parameters[i];
            let ghost seen = parameters@.subrange(0, i as int);
            let ghost next = parameters@.subrange(0, i + 1);
            proof {
                assert(next =~= seen.push(param));
                assert forall|p: TypeParameterId| next.contains(p) <==> seen.contains(p) || p
                    == param by {
                    if seen.contains(p) {
                        let j = choose|j: int| 0 <= j < seen.len() && seen[j] == p;
                        assert(next[j] == p);
                    }
                    if p == param {
                        assert(next[i as int] == p);
                    }
                    if next.contains(p) {
                        let j = choose|j: int| 0 <= j < next.len() && next[j] == p;
                        if j < i {
                            assert(seen[j] == p);
                        }
                    }
                }
            }
            if let Some(value) = self.get(param) {
                target.assign(param, value);
            }
            i += 1;
        }
        assert(parameters@.subrange(0, parameters.len() as int) =~= parameters@);
    }

    /// The assigned types, in ascending order of the parameters, for changing
    /// them in place. The list must keep its length.
    pub fn values_mut(&mut self) -> (r: &mut Vec<TypeRef>)
        ensures
            *r == old(self).mapping.values,
            final(self).mapping.keys == old(self).mapping.keys,
            final(self).mapping.values == *final(r),
    {
        &mut self.mapping.values
    }

    pub fn is_empty(&self) -> (r: bool)
        requires
            self.wf(),
        ensures
            r == (self.spec_len() == 0),
            r == (self@ == Map::<usize, TypeRef>::empty()),
    {
        self.mapping.is_empty()
    }

    /// A copy that assigns the same types.
    pub fn duplicate(&self) -> (r: Self)
        requires
            self.wf(),
        ensures
            r.wf(),
            r@ == self@,
            r.ordered_pairs() == self.ordered_pairs(),
    {
        let r = TypeArguments { mapping: self.mapping.duplicate() };
        assert(r.ordered_pairs() =~= self.ordered_pairs());
        r
    }
}

/// Additional requirements for type parameters inside a trait implementation or
/// method.
///
/// This structure maps the original type parameters to the type parameters
/// created for the bounds. If the original parameter is defined as `T: A` and
/// the bounds specify `T: B`, this structure maps `T: A` to `T: A + B`.
#[derive(Clone, Debug)]
pub struct TypeBounds {
    pub mapping: IdMap<TypeParameterId>,
}

impl View for TypeBounds {
    type V = Map<usize, TypeParameterId>;

    /// The tightened parameters, keyed by the number of the original
    /// parameter.
    open spec fn view(&self) -> Map<usize, TypeParameterId> {
        self.mapping@
    }
}

impl TypeBounds {
    pub open spec fn wf(&self) -> bool {
        self.mapping.wf()
    }

    /// The parameter that stands in for `parameter`, if any.
    pub open spec fn lookup(&self, parameter: TypeParameterId) -> Option<TypeParameterId> {
        if self@.contains_key(parameter.0) {
            Some(self@[parameter.0])
        } else {
            None
        }
    }

    /// The original parameters with what stands in for them, in ascending
    /// order of the original parameters.
    pub open spec fn ordered_pairs(&self) -> Seq<(TypeParameterId, TypeParameterId)> {
        Seq::new(
            self.mapping.keys@.len(),
            |i: int| (TypeParameterId(self.mapping.keys@[i]), self.mapping.values@[i]),
        )
    }

    pub fn new() -> (r: Self)
        ensures
            r.wf(),
            r@ == Map::<usize, TypeParameterId>::empty(),
    {
        TypeBounds { mapping: IdMap::new() }
    }

    pub fn set(&mut self, parameter: TypeParameterId, bounds: TypeParameterId)
        requires
            old(self).wf(),
        ensures
            final(self).wf(),
            final(self)@ == old(self)@.insert(parameter.0, bounds),
    {
        self.mapping.insert(parameter.0, bounds);
    }

    pub fn get(&self, parameter: TypeParameterId) -> (r: Option<TypeParameterId>)
        requires
            self.wf(),
        ensures
            r == self.lookup(parameter),
    {
        match self.mapping.get(parameter.0) {
            Some(value) => Some(*value),
            None => None,
        }
    }

    /// The original parameters with what stands in for them, in ascending
    /// order of the original parameters.
    pub fn iter(&self) -> (r: Vec<(TypeParameterId, TypeParameterId)>)
        requires
            self.wf(),
        ensures
            r@ == self.ordered_pairs(),
    {
        let mut out: Vec<(TypeParameterId, TypeParameterId)> = Vec::new();
        let mut i: usize = 0;
        while i < self.mapping.len()
            invariant
                self.wf(),
                i <= self.mapping.keys@.len(),
                out@ == self.ordered_pairs().subrange(0, i as int),
            decreases self.mapping.keys@.len() - i,
        {
            out.push((TypeParameterId(self.mapping.key_at(i)), *self.mapping.value_at(i)));
            assert(out@ =~= self.ordered_pairs().subrange(0, i + 1));
            i += 1;
        }
        assert(out@ =~= self.ordered_pairs());
        out
    }

    /// The parameters that stand in for others, in ascending order of the
    /// parameters they stand in for, for changing them in place. The list must
    /// keep its length.
    pub fn values_mut(&mut self) -> (r: &mut Vec<TypeParameterId>)
        ensures
            *r == old(self).mapping.values,
            final(self).mapping.keys == old(self).mapping.keys,
            final(self).mapping.values == *final(r),
    {
        &mut self.mapping.values
    }

    pub fn is_empty(&self) -> (r: bool)
        requires
            self.wf(),
        ensures
            r == (self@ == Map::<usize, TypeParameterId>::empty()),
    {
        self.mapping.is_empty()
    }

    /// The bounds of `self` together with those of `with`. Where both have
    /// bounds for a parameter, those of `with` are taken.
    pub fn union(&self, with: &TypeBounds) -> (r: TypeBounds)
        requires
            self.wf(),
            with.wf(),
        ensures
            r.wf(),
            r@ == self@.union_prefer_right(with@),
    {
        let mut union = TypeBounds { mapping: self.mapping.duplicate() };
        union.mapping.absorb(&with.mapping);
        union
    }

    /// A copy that holds the same bounds.
    pub fn duplicate(&self) -> (r: Self)
        requires
            self.wf(),
        ensures
            r.wf(),
            r@ == self@,
            r.ordered_pairs() == self.ordered_pairs(),
    {
        let r = TypeBounds { mapping: self.mapping.duplicate() };
        assert(r.ordered_pairs() =~= self.ordered_pairs());
        r
    }
}

/// An implementation of a trait, with (optionally) additional bounds for the
/// implementation.
#[derive(Clone, Debug)]
pub struct TraitImplementation {
    pub instance: TraitInstance,
    pub bounds: TypeBounds,
}

} // verus!
