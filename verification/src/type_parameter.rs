//! Type parameters of classes, traits and methods.
use vstd::prelude::*;
use crate::collections::copies::copy_vec;
use crate::database::{Database, Table, TypeParameter};
use crate::type_ref::{TraitInstance, TypeParameterId};

verus! {

impl TypeParameter {
    /// Adds a type parameter named `name` to the database and returns its ID.
    /// The parameter has no requirements, is immutable, and is not limited to
    /// types that are allocated on the stack.
    pub fn allocate(db: &mut Database, name: String) -> (id: TypeParameterId)
        requires
            old(db).type_parameters@.len() < u32::MAX,
        ensures
            id.0 == old(db).type_parameters@.len(),
            final(db).type_parameter_added(old(db), final(db).type_parameter(id)),
            final(db).type_parameter(id).name == name,
            final(db).type_parameter(id).requirements@.len() == 0,
            !final(db).type_parameter(id).mutable,
            !final(db).type_parameter(id).stack,
            final(db).type_parameter(id).original is None,
            
            old(db).wf() ==> final(db).wf(),
    {
        TypeParameter::add(db, TypeParameter::new(name))
    }

    /// Adds `parameter` to the database and returns its ID.
    pub fn add(db: &mut Database, parameter: TypeParameter) -> (id: TypeParameterId)
        requires
            old(db).type_parameters@.len() < u32::MAX,
        ensures
            id.0 == old(db).type_parameters@.len(),
            final(db).type_parameter_added(old(db), parameter),
            
            old(db).wf() && parameter.wf(old(db).bounds()) ==> final(db).wf(),
    {
        let id = db.type_parameters.len();
        let ghost before = *db;
        db.type_parameters.push(parameter);
        proof {
            if before.wf() && parameter.wf(before.bounds()) {
                before.lemma_wf_in_grows(before.bounds(), db.bounds());
            }
        }
        TypeParameterId(id)
    }

    pub fn new(name: String) -> (r: Self)
        ensures
            r.name == name,
            r.requirements@.len() == 0,
            !r.mutable,
            !r.stack,
            r.original is None,
    {
        TypeParameter { name, requirements: Vec::new(), mutable: false, stack: false,
            original: None }
    }

    /// A copy of the parameter.
    pub fn duplicate(&self) -> (r: Self)
        ensures
            r.name == self.name,
            r.requirements@ == self.requirements@,
            r.mutable == self.mutable,
            r.stack == self.stack,
            r.original == self.original,
    {
        TypeParameter {
            name: self.name.clone(),
            requirements: copy_vec(&self.requirements),
            mutable: self.mutable,
            stack: self.stack,
            original: self.original,
        }
    }
}

impl TypeParameterId {
    pub fn name(self, db: &Database) -> (r: &String)
        requires
            db.has_type_parameter(self),
        ensures
            *r == db.type_parameter(self).name,
    {
        &db.type_parameters[self.0].name
    }

    /// Adds `requirements` after the requirements that the parameter has.
    pub fn add_requirements(self, db: &mut Database, requirements: Vec<TraitInstance>)
        requires
            old(db).has_type_parameter(self),
        ensures
            final(db).type_parameter_changed(old(db), self, final(db).type_parameter(self),
            ),
            final(db).type_parameter(self).requirements@ == old(db).type_parameter(
                self,
            ).requirements@ + requirements@,
            final(db).type_parameter(self).name == old(db).type_parameter(self).name,
            final(db).type_parameter(self).mutable == old(db).type_parameter(self).mutable,
            final(db).type_parameter(self).stack == old(db).type_parameter(self).stack,
            final(db).type_parameter(self).original == old(db).type_parameter(self).original,
            final(db).same_but(old(db), set![Table::TypeParameters]),
            old(db).wf() && (forall|i: int|
                0 <= i < requirements@.len() ==> old(db).has_trait(
                    (#[trigger] requirements@[i]).instance_of,
                )) ==> final(db).wf(),
    {
        let mut requirements = requirements;
        db.type_parameters[self.0].requirements.append(&mut requirements);
        assert(db.type_parameters@ =~= old(db).type_parameters@.update(
            self.0 as int,
            db.type_parameter(self),
        ));
    }

    pub fn requirements(self, db: &Database) -> (r: Vec<TraitInstance>)
        requires
            db.has_type_parameter(self),
        ensures
            r@ == db.type_parameter(self).requirements@,
    {
        copy_vec(&db.type_parameters[self.0].requirements)
    }

    pub fn set_original(self, db: &mut Database, parameter: TypeParameterId)
        requires
            old(db).has_type_parameter(self),
        ensures
            final(db).type_parameters@ == old(db).type_parameters@.update(
                self.0 as int,
                TypeParameter { original: Some(parameter), ..old(db).type_parameter(self) }),
            old(db).wf() ==> final(db).wf(),
    {
        db.type_parameters[self.0].original = Some(parameter);
    }

    pub fn original(self, db: &Database) -> (r: Option<TypeParameterId>)
        requires
            db.has_type_parameter(self),
        ensures
            r == db.type_parameter(self).original,
    {
        db.type_parameters[self.0].original
    }

    pub fn set_mutable(self, db: &mut Database)
        requires
            old(db).has_type_parameter(self),
        ensures
            final(db).type_parameter_changed(
                old(db),
                self,
                TypeParameter { mutable: true, ..old(db).type_parameter(self) },
            ),
            old(db).wf() ==> final(db).wf(),
    {
        db.type_parameters[self.0].mutable = true;
    }

    pub fn is_mutable(self, db: &Database) -> (r: bool)
        requires
            db.has_type_parameter(self),
        ensures
            r == db.type_parameter(self).mutable,
    {
        db.type_parameters[self.0].mutable
    }

    pub fn set_stack_allocated(self, db: &mut Database)
        requires
            old(db).has_type_parameter(self),
        ensures
            final(db).type_parameter_changed(
                old(db),
                self,
                TypeParameter { stack: true, ..old(db).type_parameter(self) },
            ),
            old(db).wf() ==> final(db).wf(),
    {
        db.type_parameters[self.0].stack = true;
    }

    pub fn is_stack_allocated(self, db: &Database) -> (r: bool)
        requires
            db.has_type_parameter(self),
        ensures
            r == db.type_parameter(self).stack,
    {
        db.type_parameters[self.0].stack
    }

    /// Adds a copy of the parameter that is immutable, and returns its ID.
    pub fn as_immutable(self, db: &mut Database) -> (id: TypeParameterId)
        requires
            old(db).has_type_parameter(self),
            old(db).type_parameters@.len() < u32::MAX,
        ensures
            id.0 == old(db).type_parameters@.len(),
            final(db).type_parameter_added(old(db), final(db).type_parameter(id)),
            final(db).type_parameter(id).name == old(db).type_parameter(self).name,
            final(db).type_parameter(id).requirements@ == old(db).type_parameter(
                self,
            ).requirements@,
            !final(db).type_parameter(id).mutable,
            final(db).type_parameter(id).stack == old(db).type_parameter(self).stack,
            final(db).type_parameter(id).original == old(db).type_parameter(self).original,
            
            old(db).wf() ==> final(db).wf(),
    {
        let mut copy = db.type_parameters[self.0].duplicate();
        copy.mutable = false;
        proof {
            if db.wf() {
                assert(db.type_parameters@[self.0 as int].wf(db.bounds()));
            }
        }
        TypeParameter::add(db, copy)
    }

    /// Adds a copy of the parameter that names the parameter as its original,
    /// and returns its ID. The copy is what the bounds of a method or an
    /// implementation add their requirements to.
    pub fn clone_for_bound(self, db: &mut Database) -> (id: TypeParameterId)
        requires
            old(db).has_type_parameter(self),
            old(db).type_parameters@.len() < u32::MAX,
        ensures
            id.0 == old(db).type_parameters@.len(),
            final(db).type_parameter_added(old(db), final(db).type_parameter(id)),
            final(db).type_parameter(id).name == old(db).type_parameter(self).name,
            final(db).type_parameter(id).requirements@ == old(db).type_parameter(
                self,
            ).requirements@,
            final(db).type_parameter(id).mutable == old(db).type_parameter(self).mutable,
            final(db).type_parameter(id).stack == old(db).type_parameter(self).stack,
            final(db).type_parameter(id).original == Some(self),
            
            old(db).wf() ==> final(db).wf(),
    {
        let mut copy = db.type_parameters[self.0].duplicate();
        copy.original = Some(self);
        proof {
            if db.wf() {
                assert(db.type_parameters@[self.0 as int].wf(db.bounds()));
            }
        }
        TypeParameter::add(db, copy)
    }

    pub fn has_requirements(self, db: &Database) -> (r: bool)
        requires
            db.has_type_parameter(self),
        ensures
            r == (db.type_parameter(self).requirements@.len() > 0),
    {
        db.type_parameters[self.0].requirements.len() > 0
    }
}

} // verus!
