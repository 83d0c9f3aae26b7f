//! Fields of classes.
use vstd::prelude::*;
use crate::database::{Database, Field, Table};
use crate::kinds::Visibility;
use crate::location::Location;
use crate::type_ref::{FieldId, ModuleId, TypeRef};

verus! {

impl Field {
    /// Adds a field to the database and returns its ID. The field has no
    /// documentation yet.
    pub fn allocate(
        db: &mut Database,
        name: String,
        index: usize,
        value_type: TypeRef,
        visibility: Visibility,
        module: ModuleId,
        location: Location,
    ) -> (id: FieldId)
        requires
            old(db).fields@.len() < u32::MAX,
        ensures
            id.0 == old(db).fields@.len(),
            final(db).field_added(old(db), final(db).field(id)),
            final(db).field(id).name == name,
            final(db).field(id).index == index,
            final(db).field(id).value_type == value_type,
            final(db).field(id).visibility == visibility,
            final(db).field(id).module == module,
            final(db).field(id).location == location,
            final(db).field(id).documentation@.len() == 0,
            
            old(db).wf() && value_type.valid(old(db).bounds()) ==> final(db).wf(),
    {
        let id = db.fields.len();
        let ghost before = *db;
        db.fields.push(
            Field { name, index, value_type, visibility, module, location,
                documentation: String::new() },
        );
        proof {
            if before.wf() && value_type.valid(before.bounds()) {
                before.lemma_wf_in_grows(before.bounds(), db.bounds());
                value_type.lemma_valid_grows(before.bounds(), db.bounds());
            }
        }
        FieldId(id)
    }
}

impl FieldId {
    pub fn name(self, db: &Database) -> (r: &String)
        requires
            db.has_field(self),
        ensures
            *r == db.field(self).name,
    {
        &db.fields[self.0].name
    }

    pub fn index(self, db: &Database) -> (r: usize)
        requires
            db.has_field(self),
        ensures
            r == db.field(self).index,
    {
        db.fields[self.0].index
    }

    pub fn value_type(self, db: &Database) -> (r: TypeRef)
        requires
            db.has_field(self),
        ensures
            r == db.field(self).value_type,
            db.wf() ==> r.valid(db.bounds()),
    {
        db.fields[self.0].value_type
    }

    pub fn set_value_type(self, db: &mut Database, value_type: TypeRef)
        requires
            old(db).has_field(self),
        ensures
            final(db).field_changed(old(db), self, Field { value_type, ..old(db).field(self) }),
            old(db).wf() && value_type.valid(old(db).bounds()) ==> final(db).wf(),
    {
        db.fields[self.0].value_type = value_type;
    }

    pub fn is_public(self, db: &Database) -> (r: bool)
        requires
            db.has_field(self),
        ensures
            r == (db.field(self).visibility is Public),
    {
        db.fields[self.0].visibility == Visibility::Public
    }

    pub fn location(self, db: &Database) -> (r: Location)
        requires
            db.has_field(self),
        ensures
            r == db.field(self).location,
    {
        db.fields[self.0].location
    }

    pub fn set_documentation(self, db: &mut Database, value: String)
        requires
            old(db).has_field(self),
        ensures
            final(db).field_changed(
                old(db),
                self,
                Field { documentation: value, ..old(db).field(self) },
            ),
            old(db).wf() ==> final(db).wf(),
    {
        db.fields[self.0].documentation = value;
    }

    pub fn documentation(self, db: &Database) -> (r: &String)
        requires
            db.has_field(self),
        ensures
            *r == db.field(self).documentation,
    {
        &db.fields[self.0].documentation
    }
}

} // verus!
