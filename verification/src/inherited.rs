//! The type arguments that a type brings with it.
use vstd::prelude::*;
use crate::arguments::{TypeArguments, TypeBounds};
use crate::database::{Database, Table, TypeParameter};
use crate::type_ref::{TraitInstance, TypeId, TypeParameterId, TypeRef};

verus! {

/// The type arguments that the first `n` of `requirements` bring with them:
/// for each requirement that is an instance of a generic trait, in order, what
/// the instance assigns and on top of it what its trait inherits.
pub open spec fn required_arguments(db: &Database, requirements: Seq<TraitInstance>, n: int) -> Map<
    usize,
    TypeRef,
>
    decreases n,
{
    if n <= 0 {
        Map::empty()
    } else {
        let earlier = required_arguments(db, requirements, n - 1);
        let req = requirements[n - 1];
        if db.trait_(req.instance_of).generic() {
            earlier.union_prefer_right(req.arguments(db)@).union_prefer_right(
                db.trait_(req.instance_of).inherited_type_arguments@,
            )
        } else {
            earlier
        }
    }
}

impl TypeRef {
    /// The type arguments that the type brings with it: those of an instance
    /// of a generic class or trait; for a plain or rigid type parameter those
    /// that its requirements bring with them; and none for any other type.
    pub open spec fn spec_type_arguments(self, db: &Database) -> Map<usize, TypeRef> {
        match self.resolved(db).inner() {
            Some(TypeId::TraitInstance(ins)) => if db.trait_(ins.instance_of).generic() {
                ins.arguments(db)@
            } else {
                Map::empty()
            },
            Some(TypeId::ClassInstance(ins)) => if db.class(ins.instance_of).generic() {
                ins.arguments(db)@
            } else {
                Map::empty()
            },
            Some(id) => match id.parameter() {
                Some(p) => required_arguments(
                    db,
                    db.type_parameter(p).requirements@,
                    db.type_parameter(p).requirements@.len() as int,
                ),
                None => Map::empty(),
            },
            None => Map::empty(),
        }
    }

    /// The type arguments of every requirement of the type parameter `id` are
    /// in the database.
    pub open spec fn requirements_have_arguments(self, db: &Database, id: TypeParameterId) -> bool {
        forall|i: int|
            0 <= i < db.type_parameter(id).requirements@.len() ==> (#[trigger] db.type_parameter(
                id,
            ).requirements@[i]).has_arguments(db)
    }

    /// The type arguments that the type needs are in the database.
    pub open spec fn has_type_arguments(self, db: &Database) -> bool {
        match self.resolved(db).inner() {
            Some(TypeId::TraitInstance(ins)) => ins.has_arguments(db),
            Some(TypeId::ClassInstance(ins)) => ins.has_arguments(db),
            Some(id) => match id.parameter() {
                Some(p) => self.requirements_have_arguments(db, p),
                None => true,
            },
            None => true,
        }
    }

    /// The type arguments that the type brings with it: see
    /// `spec_type_arguments`.
    pub fn type_arguments(self, db: &Database) -> (r: TypeArguments)
        requires
            db.wf(),
            self.valid(db.bounds()),
            self.has_type_arguments(db),
        ensures
            r.wf(),
            r@ == self.spec_type_arguments(db),
    {
        match self.type_id(db) {
            Ok(TypeId::TraitInstance(ins)) => {
                if ins.instance_of.is_generic(db) {
                    db.type_arguments[ins.type_arguments as usize].duplicate()
                } else {
                    TypeArguments::new()
                }
            },
            Ok(TypeId::ClassInstance(ins)) => {
                if ins.instance_of.is_generic(db) {
                    db.type_arguments[ins.type_arguments as usize].duplicate()
                } else {
                    TypeArguments::new()
                }
            },
            Ok(TypeId::TypeParameter(id)) | Ok(TypeId::RigidTypeParameter(id)) => {
                let requirements = &db.type_parameters[id.0].requirements;
                let mut targs = TypeArguments::new();
                let mut i: usize = 0;
                proof {
                    assert(db.type_parameters@[id.0 as int].wf(db.bounds()));
                    assert(self.resolved(db).inner().unwrap().parameter() == Some(id));
                    assert(self.requirements_have_arguments(db, id));
                }
                while i < requirements.len()
                    invariant
                        db.wf(),
                        db.has_type_parameter(id),
                        *requirements == db.type_parameter(id).requirements,
                        db.type_parameter(id).wf(db.bounds()),
                        forall|i: int|
                            0 <= i < requirements@.len() ==> (
                            #[trigger] requirements@[i]).has_arguments(db),
                        targs.wf(),
                        i <= requirements@.len(),
                        targs@ == required_arguments(db, requirements@, i as int),
                    decreases requirements@.len() - i,
                {
                    let req = requirements[i];
                    proof {
                        assert(requirements@[i as int].instance_of.0 < db.bounds().traits);
                        assert(requirements@[i as int].has_arguments(db));
                        assert(db.traits@[req.instance_of.0 as int].wf(db.bounds()));
                    }
                    if req.instance_of.is_generic(db) {
                        db.type_arguments[req.type_arguments as usize].copy_into(&mut targs);
                        db.traits[req.instance_of.0 as usize].inherited_type_arguments.copy_into(
                            &mut targs,
                        );
                    }
                    i += 1;
                }
                targs
            },
            _ => TypeArguments::new(),
        }
    }
}

/// The number of mutable type parameters among the first `n` of `bounds`.
pub open spec fn mutable_count(db: &Database, bounds: Seq<TypeParameterId>, n: int) -> nat
    decreases n,
{
    if n <= 0 {
        0
    } else if db.type_parameter(bounds[n - 1]).mutable {
        mutable_count(db, bounds, n - 1) + 1
    } else {
        mutable_count(db, bounds, n - 1)
    }
}

impl TypeParameter {
    /// `self` is an immutable copy of `other`.
    pub open spec fn immutable_copy_of(&self, other: &TypeParameter) -> bool {
        &&& self.name == other.name
        &&& self.requirements@ == other.requirements@
        &&& !self.mutable
        &&& self.stack == other.stack
        &&& self.original == other.original
    }
}

impl TypeBounds {
    /// Replaces every bound that is mutable by an immutable copy of it, which
    /// is added to the database. The bounds are gone through in ascending
    /// order of the parameters that they stand in for, so the copies follow
    /// each other in that order after the type parameters that were there.
    pub fn make_immutable(&mut self, db: &mut Database)
        requires
            old(self).wf(),
            forall|k: usize| #[trigger]
                old(self)@.contains_key(k) ==> old(db).has_type_parameter(old(self)@[k]),
            old(db).type_parameters@.len() + old(self).mapping.values@.len() <= u32::MAX,
        ensures
            final(self).wf(),
            final(self).mapping.keys@ == old(self).mapping.keys@,
            final(self).mapping.values@.len() == old(self).mapping.values@.len(),
            forall|j: int|
                0 <= j < old(self).mapping.values@.len() ==>
                    #[trigger] final(self).mapping.values@[j] == (if old(db).type_parameter(
                    old(self).mapping.values@[j],
                ).mutable {
                    TypeParameterId(
                        (old(db).type_parameters@.len() + mutable_count(
                            old(db),
                            old(self).mapping.values@,
                            j,
                        )) as usize,
                    )
                } else {
                    old(self).mapping.values@[j]
                }),
            forall|j: int|
                0 <= j < old(self).mapping.values@.len() && old(db).type_parameter(
                    old(self).mapping.values@[j],
                ).mutable ==> final(db).has_type_parameter(
                    #[trigger] final(self).mapping.values@[j],
                ) && final(db).type_parameter(final(self).mapping.values@[j]).immutable_copy_of(
                    &old(db).type_parameter(old(self).mapping.values@[j]),
                ),
            final(db).type_parameters@.len() == old(db).type_parameters@.len() + mutable_count(
                old(db),
                old(self).mapping.values@,
                old(self).mapping.values@.len() as int,
            ),
            final(db).type_parameters@.subrange(0, old(db).type_parameters@.len() as int)
                == old(db).type_parameters@,
            final(db).same_but(old(db), set![Table::TypeParameters]),
            old(db).wf() ==> final(db).wf(),
    {
        let ghost before = *db;
        let ghost bounds = self.mapping.values@;
        let ghost first = before.type_parameters@.len() as int;
        let mut i: usize = 0;
        proof {
            assert forall|j: int| 0 <= j < bounds.len() implies before.has_type_parameter(
                #[trigger] bounds[j],
            ) by {
                crate::collections::id_map::lemma_place_of(self.mapping.keys@, j);
                assert(self@.contains_key(self.mapping.keys@[j]));
            }
            assert(db.type_parameters@.subrange(0, first) =~= before.type_parameters@);
        }
        while i < self.mapping.len()
            invariant
                self.wf(),
                self.mapping.keys@ == old(self).mapping.keys@,
                bounds.len() == self.mapping.values@.len(),
                first == before.type_parameters@.len(),
                i <= bounds.len(),
                forall|j: int| 0 <= j < bounds.len() ==>
                    before.has_type_parameter(#[trigger] bounds[j]),
                forall|j: int| i <= j < bounds.len() ==> self.mapping.values@[j] == bounds[j],
                forall|j: int|
                    0 <= j < i ==> #[trigger] self.mapping.values@[j] == (if before.type_parameter(
                        bounds[j],
                    ).mutable {
                        TypeParameterId((first + mutable_count(&before, bounds, j)) as usize)
                    } else {
                        bounds[j]
                    }),
                forall|j: int|
                    0 <= j < i && before.type_parameter(bounds[j]).mutable ==>
                        db.has_type_parameter(
                        #[trigger] self.mapping.values@[j],
                    ) && db.type_parameter(self.mapping.values@[j]).immutable_copy_of(
                        &before.type_parameter(bounds[j]),
                    ),
                db.type_parameters@.len() == first + mutable_count(&before, bounds, i as int),
                first + bounds.len() <= u32::MAX,
                mutable_count(&before, bounds, i as int) <= i,
                db.type_parameters@.subrange(0, first) == before.type_parameters@,
                db.same_but(&before, set![Table::TypeParameters]),
                before.wf() ==> db.wf(),
            decreases bounds.len() - i,
        {
            let bound = *self.mapping.value_at(i);
            let ghost table = db.type_parameters@;
            let ghost values = self.mapping.values@;
            proof {
                assert(bound == bounds[i as int]);
                assert(before.has_type_parameter(bounds[i as int]));
                assert(table[bound.0 as int] == table.subrange(0, first)[bound.0 as int]);
            }
            if bound.is_mutable(db) {
                let copy = bound.as_immutable(db);
                proof {
                    assert(db.type_parameters@.subrange(0, first) =~= table.subrange(0, first));
                }
                self.mapping.set_value_at(i, copy);
                proof {
                    assert forall|j: int|
                        0 <= j < i && before.type_parameter(
                            bounds[j],
                        ).mutable implies db.has_type_parameter(
                        #[trigger] self.mapping.values@[j],
                    ) && db.type_parameter(self.mapping.values@[j]).immutable_copy_of(
                        &before.type_parameter(bounds[j]),
                    ) by {
                        assert(self.mapping.values@[j] == values[j]);
                        assert(db.type_parameters@[values[j].0 as int]
                            == table[values[j].0 as int]);
                    }
                }
            }
            i += 1;
        }
    }
}

} // verus!
