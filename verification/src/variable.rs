//! Local variables.
use vstd::prelude::*;
use crate::database::{Database, Variable};
use crate::location::Location;
use crate::type_ref::{TypeRef, VariableId};

verus! {

impl Variable {
    /// Adds a variable to the database and returns its ID.
    pub fn allocate(
        db: &mut Database,
        name: String,
        value_type: TypeRef,
        mutable: bool,
        location: Location,
    ) -> (id: VariableId)
        requires
            old(db).variables@.len() < u32::MAX,
        ensures
            id.0 == old(db).variables@.len(),
            final(db).variable_added(old(db), Variable { name, value_type, mutable, location }),
            old(db).wf() && value_type.valid(old(db).bounds()) ==> final(db).wf(),
    {
        let id = VariableId(db.variables.len());
        let ghost before = *db;

        db.variables.push(Variable { name, value_type, mutable, location });
        proof {
            if before.wf() && value_type.valid(before.bounds()) {
                before.lemma_wf_in_grows(before.bounds(), db.bounds());
                value_type.lemma_valid_grows(before.bounds(), db.bounds());
            }
        }
        id
    }
}

impl VariableId {
    pub fn name(self, db: &Database) -> (r: &String)
        requires
            db.has_variable(self),
        ensures
            *r == db.variable(self).name,
    {
        &db.variables[self.0].name
    }

    pub fn value_type(self, db: &Database) -> (r: TypeRef)
        requires
            db.has_variable(self),
        ensures
            r == db.variable(self).value_type,
            db.wf() ==> r.valid(db.bounds()),
    {
        db.variables[self.0].value_type
    }

    pub fn set_value_type(self, db: &mut Database, typ: TypeRef)
        requires
            old(db).has_variable(self),
        ensures
            final(db).variable_changed(
                old(db),
                self,
                Variable { value_type: typ, ..old(db).variable(self) },
            ),
            old(db).wf() && typ.valid(old(db).bounds()) ==> final(db).wf(),
    {
        db.variables[self.0].value_type = typ;
    }

    pub fn is_mutable(self, db: &Database) -> (r: bool)
        requires
            db.has_variable(self),
        ensures
            r == db.variable(self).mutable,
    {
        db.variables[self.0].mutable
    }

    pub fn location(self, db: &Database) -> (r: Location)
        requires
            db.has_variable(self),
        ensures
            r == db.variable(self).location,
    {
        db.variables[self.0].location
    }
}

} // verus!
