//! Constructors of enum classes.
use vstd::prelude::*;
use crate::database::{Constructor, Database};
use crate::location::Location;
use crate::type_ref::{ConstructorId, TypeRef};

verus! {

impl Constructor {
    /// Adds a constructor to the database and returns its ID. `id` is the
    /// number of the constructor within its class.
    pub fn allocate(
        db: &mut Database,
        id: u16,
        name: String,
        members: Vec<TypeRef>,
        location: Location,
    ) -> (global_id: ConstructorId)
        requires
            old(db).constructors@.len() < u32::MAX,
        ensures
            global_id.0 == old(db).constructors@.len(),
            final(db).constructor_added(old(db), final(db).constructor(global_id)),
            final(db).constructor(global_id).fresh(id, name, members, location),
            old(db).wf() && (forall|i: int|
                0 <= i < members@.len() ==> (#[trigger] members@[i]).valid(old(db).bounds()))
                ==> final(db).wf(),
    {
        let global_id = db.constructors.len();
        let ghost before = *db;

        db.constructors.push(
            Constructor { id, name, arguments: members, location, documentation: String::new() },
        );
        proof {
            if before.wf() && (forall|i: int|
                0 <= i < members@.len() ==> (#[trigger] members@[i]).valid(before.bounds())) {
                before.lemma_wf_in_grows(before.bounds(), db.bounds());
                assert forall|i: int| 0 <= i < members@.len() implies
                    (#[trigger] members@[i]).valid(
                    db.bounds(),
                ) by {
                    members@[i].lemma_valid_grows(before.bounds(), db.bounds());
                }
            }
        }
        ConstructorId(global_id)
    }
}

impl ConstructorId {
    /// The number of the constructor within its class.
    pub fn id(self, db: &Database) -> (r: u16)
        requires
            db.has_constructor(self),
        ensures
            r == db.constructor(self).id,
    {
        db.constructors[self.0].id
    }

    pub fn name(self, db: &Database) -> (r: &String)
        requires
            db.has_constructor(self),
        ensures
            *r == db.constructor(self).name,
    {
        &db.constructors[self.0].name
    }

    /// The types of the members of the constructor.
    pub fn arguments(self, db: &Database) -> (r: &[TypeRef])
        requires
            db.has_constructor(self),
        ensures
            r@ == db.constructor(self).arguments@,
    {
        db.constructors[self.0].arguments.as_slice()
    }

    pub fn set_arguments(self, db: &mut Database, members: Vec<TypeRef>)
        requires
            old(db).has_constructor(self),
        ensures
            final(db).constructor_changed(
                old(db),
                self,
                Constructor { arguments: members, ..old(db).constructor(self) },
            ),
            old(db).wf() && (forall|i: int|
                0 <= i < members@.len() ==> (#[trigger] members@[i]).valid(old(db).bounds()))
                ==> final(db).wf(),
    {
        db.constructors[self.0].arguments = members;
    }

    pub fn number_of_arguments(self, db: &Database) -> (r: usize)
        requires
            db.has_constructor(self),
        ensures
            r == db.constructor(self).arguments@.len(),
    {
        db.constructors[self.0].arguments.len()
    }

    pub fn location(self, db: &Database) -> (r: Location)
        requires
            db.has_constructor(self),
        ensures
            r == db.constructor(self).location,
    {
        db.constructors[self.0].location
    }

    pub fn set_documentation(self, db: &mut Database, value: String)
        requires
            old(db).has_constructor(self),
        ensures
            final(db).constructor_changed(
                old(db),
                self,
                Constructor { documentation: value, ..old(db).constructor(self) },
            ),
            old(db).wf() ==> final(db).wf(),
    {
        db.constructors[self.0].documentation = value;
    }

    pub fn documentation(self, db: &Database) -> (r: &String)
        requires
            db.has_constructor(self),
        ensures
            *r == db.constructor(self).documentation,
    {
        &db.constructors[self.0].documentation
    }
}

} // verus!
