//! Constants.
use vstd::prelude::*;
use crate::database::{Constant, Database, Module, ModuleSymbol, Table};
use crate::kinds::{Symbol, Visibility};
use crate::location::Location;
use crate::type_ref::{ConstantId, ModuleId, TypeRef};

verus! {

impl Constant {
    /// Adds a constant to the database and to its module, where its name
    /// stands for it from then on, and returns its ID. The constant is
    /// numbered within its module by the number of constants that the module
    /// had.
    pub fn allocate(
        db: &mut Database,
        module: ModuleId,
        location: Location,
        name: String,
        visibility: Visibility,
        value_type: TypeRef,
    ) -> (id: ConstantId)
        requires
            old(db).has_module(module),
            old(db).module_at(module).constants@.len() <= u16::MAX,
            old(db).constants@.len() < u32::MAX,
            old(db).module_at(module).symbols.wf(),
        ensures
            id.0 == old(db).constants@.len(),
            final(db).constants@ == old(db).constants@.push(
                Constant {
                    id: old(db).module_at(module).constants@.len() as u16,
                    module,
                    location,
                    name,
                    documentation: final(db).constant(id).documentation,
                    value_type,
                    visibility,
                },
            ),
            final(db).constant(id).documentation@.len() == 0,
            final(db).modules@ == old(db).modules@.update(
                module.0 as int,
                Module {
                    constants: final(db).module_at(module).constants,
                    symbols: final(db).module_at(module).symbols,
                    ..old(db).module_at(module)
                },
            ),
            final(db).module_at(module).constants@ == old(db).module_at(module).constants@.push(id),
            final(db).module_at(module).symbols.wf(),
            final(db).module_at(module).symbols@ == old(db).module_at(module).symbols@.insert(
                name@,
                ModuleSymbol { symbol: Symbol::Constant(id), used: false },
            ),
            final(db).same_but(old(db), set![Table::Constants, Table::Modules]),
            old(db).wf() && value_type.valid(old(db).bounds()) ==> final(db).wf(),
    {
        let ghost before = *db;
        let global_id = db.constants.len();
        let local_id = db.modules[module.0 as usize].constants.len();
        let constant = Constant {
            id: local_id as u16,
            module,
            location,
            name: name.clone(),
            documentation: String::new(),
            value_type,
            visibility,
        };
        let const_id = ConstantId(global_id);

        db.modules[module.0 as usize].constants.push(const_id);
        let ghost mid = *db;
        proof {
            assert(mid.modules@ =~= before.modules@.update(
                module.0 as int,
                Module { constants: mid.module_at(module).constants, ..before.module_at(module) },
            ));
        }
        module.new_symbol(db, name, Symbol::Constant(const_id));
        let ghost late = *db;
        db.constants.push(constant);
        proof {
            assert(db.modules@ =~= before.modules@.update(
                module.0 as int,
                Module {
                    constants: db.module_at(module).constants,
                    symbols: db.module_at(module).symbols,
                    ..before.module_at(module)
                },
            ));
            if before.wf() && value_type.valid(before.bounds()) {
                before.lemma_wf_in_grows(before.bounds(), db.bounds());
                value_type.lemma_valid_grows(before.bounds(), db.bounds());
                let was = before.modules@[module.0 as int];
                assert(was.wf(db.bounds()));
                assert(db.modules@[module.0 as int].wf(db.bounds()));
                assert forall|i: int| 0 <= i < db.modules@.len() implies (
                #[trigger] db.modules@[i]).wf(db.bounds()) by {
                    if i != module.0 {
                        assert(db.modules@[i] == before.modules@[i]);
                    }
                }
            }
        }
        const_id
    }
}

impl ConstantId {
    /// The number of the constant within its module.
    pub fn module_local_id(self, db: &Database) -> (r: u16)
        requires
            db.has_constant(self),
        ensures
            r == db.constant(self).id,
    {
        db.constants[self.0].id
    }

    pub fn location(self, db: &Database) -> (r: Location)
        requires
            db.has_constant(self),
        ensures
            r == db.constant(self).location,
    {
        db.constants[self.0].location
    }

    pub fn name(self, db: &Database) -> (r: &String)
        requires
            db.has_constant(self),
        ensures
            *r == db.constant(self).name,
    {
        &db.constants[self.0].name
    }

    pub fn module(self, db: &Database) -> (r: ModuleId)
        requires
            db.has_constant(self),
        ensures
            r == db.constant(self).module,
            db.wf() ==> db.has_module(r),
    {
        proof {
            if db.wf() {
                assert(db.constants@[self.0 as int].wf(db.bounds()));
            }
        }
        db.constants[self.0].module
    }

    pub fn set_value_type(self, db: &mut Database, value_type: TypeRef)
        requires
            old(db).has_constant(self),
        ensures
            final(db).constant_changed(
                old(db),
                self,
                Constant { value_type, ..old(db).constant(self) },
            ),
            old(db).wf() && value_type.valid(old(db).bounds()) ==> final(db).wf(),
    {
        db.constants[self.0].value_type = value_type;
    }

    pub fn value_type(self, db: &Database) -> (r: TypeRef)
        requires
            db.has_constant(self),
        ensures
            r == db.constant(self).value_type,
            db.wf() ==> r.valid(db.bounds()),
    {
        proof {
            if db.wf() {
                assert(db.constants@[self.0 as int].wf(db.bounds()));
            }
        }
        db.constants[self.0].value_type
    }

    pub fn is_public(self, db: &Database) -> (r: bool)
        requires
            db.has_constant(self),
        ensures
            r == (db.constant(self).visibility is Public),
    {
        db.constants[self.0].visibility == Visibility::Public
    }

    pub fn set_documentation(self, db: &mut Database, value: String)
        requires
            old(db).has_constant(self),
        ensures
            final(db).constant_changed(
                old(db),
                self,
                Constant { documentation: value, ..old(db).constant(self) },
            ),
            old(db).wf() ==> final(db).wf(),
    {
        db.constants[self.0].documentation = value;
    }

    pub fn documentation(self, db: &Database) -> (r: &String)
        requires
            db.has_constant(self),
        ensures
            *r == db.constant(self).documentation,
    {
        &db.constants[self.0].documentation
    }
}

} // verus!
