//! Traits and instances of traits.
use vstd::prelude::*;
use crate::arguments::TypeArguments;
use crate::collections::copies::{copy_vec, method_ids, methods_of, parameter_ids, parameters_of};
use crate::collections::name_index::{holds_name, with_entry, NameIndex};
use crate::database::{
    arguments_valid, type_parameter_symbol, Database, Table, Trait, TypeParameter,
};
use crate::kinds::{Symbol, Visibility};
use crate::location::Location;
use crate::type_ref::{
    Bounds, ClassId, MethodId, ModuleId, TraitId, TraitInstance, TypeParameterId,
};

verus! {

impl Trait {
    /// The trait has the given attributes and nothing else.
    pub open spec fn fresh(
        &self,
        name: String,
        visibility: Visibility,
        module: ModuleId,
        location: Location,
    ) -> bool {
        &&& self.name == name
        &&& self.visibility == visibility
        &&& self.module == module
        &&& self.location == location
        &&& self.documentation@.len() == 0
        &&& self.implemented_by@.len() == 0
        &&& self.type_parameters.entries().len() == 0
        &&& self.required_traits@.len() == 0
        &&& self.default_methods.entries().len() == 0
        &&& self.required_methods.entries().len() == 0
        &&& self.inherited_type_arguments@ == Map::<usize, crate::type_ref::TypeRef>::empty()
    }

    /// Adds a trait to the database and returns its ID.
    pub fn allocate(
        db: &mut Database,
        name: String,
        visibility: Visibility,
        module: ModuleId,
        location: Location,
    ) -> (id: TraitId)
        requires
            old(db).traits@.len() < u32::MAX,
        ensures
            id.0 == old(db).traits@.len(),
            final(db).trait_added(old(db), final(db).trait_(id)),
            final(db).trait_(id).fresh(name, visibility, module, location),
            old(db).wf() ==> final(db).wf(),
    {
        let id = db.traits.len() as u32;
        let trait_type = Trait::new(name, visibility, module, location);
        let ghost before = *db;

        db.traits.push(trait_type);
        proof {
            if before.wf() {
                before.lemma_wf_in_grows(before.bounds(), db.bounds());
            }
        }
        TraitId(id)
    }

    pub fn new(name: String, visibility: Visibility, module: ModuleId, location: Location) -> (r:
        Self)
        ensures
            r.fresh(name, visibility, module, location),
            forall|b: Bounds| r.wf(b),
    {
        Trait {
            name,
            visibility,
            module,
            location,
            documentation: String::new(),
            implemented_by: Vec::new(),
            type_parameters: NameIndex::new(),
            required_traits: Vec::new(),
            default_methods: NameIndex::new(),
            required_methods: NameIndex::new(),
            inherited_type_arguments: TypeArguments::new(),
        }
    }

    pub fn is_generic(&self) -> (r: bool)
        ensures
            r == self.generic(),
    {
        !self.type_parameters.is_empty()
    }
}

impl TraitId {
    pub fn name(self, db: &Database) -> (r: &String)
        requires
            db.has_trait(self),
        ensures
            *r == db.trait_(self).name,
    {
        &db.traits[self.0 as usize].name
    }

    /// The type parameters of the trait, in the order of their definition.
    pub fn type_parameters(self, db: &Database) -> (r: Vec<TypeParameterId>)
        requires
            db.has_trait(self),
        ensures
            r@ == parameters_of(&db.trait_(self).type_parameters),
    {
        parameter_ids(&db.traits[self.0 as usize].type_parameters)
    }

    /// The traits that the trait requires, in the order in which they were
    /// added.
    pub fn required_traits(self, db: &Database) -> (r: Vec<TraitInstance>)
        requires
            db.has_trait(self),
        ensures
            r@ == db.trait_(self).required_traits@,
    {
        copy_vec(&db.traits[self.0 as usize].required_traits)
    }

    /// The methods that the trait requires, in the order in which their names
    /// were added.
    pub fn required_methods(self, db: &Database) -> (r: Vec<MethodId>)
        requires
            db.wf(),
            db.has_trait(self),
        ensures
            r@ == methods_of(&db.trait_(self).required_methods),
    {
        proof {
            assert(db.traits@[self.0 as int].wf(db.bounds()));
        }
        method_ids(&db.traits[self.0 as usize].required_methods)
    }

    /// The methods that the trait defines itself, in the order in which their
    /// names were added.
    pub fn default_methods(self, db: &Database) -> (r: Vec<MethodId>)
        requires
            db.wf(),
            db.has_trait(self),
        ensures
            r@ == methods_of(&db.trait_(self).default_methods),
    {
        proof {
            assert(db.traits@[self.0 as int].wf(db.bounds()));
        }
        method_ids(&db.traits[self.0 as usize].default_methods)
    }

    /// The classes that implement the trait, in the order in which the
    /// implementations were recorded.
    pub fn implemented_by(self, db: &Database) -> (r: &Vec<ClassId>)
        requires
            db.has_trait(self),
        ensures
            *r == db.trait_(self).implemented_by,
    {
        &db.traits[self.0 as usize].implemented_by
    }

    /// True if the trait itself defines or requires a method named `name`.
    pub fn method_exists(self, db: &Database, name: &str) -> (r: bool)
        requires
            db.has_trait(self),
            db.trait_(self).default_methods.wf(),
            db.trait_(self).required_methods.wf(),
        ensures
            r == (holds_name(db.trait_(self).default_methods.entries(), name@) || holds_name(
                db.trait_(self).required_methods.entries(),
                name@,
            )),
    {
        db.traits[self.0 as usize].default_methods.contains_key(name)
            || db.traits[self.0 as usize].required_methods.contains_key(name)
    }

    pub fn add_default_method(self, db: &mut Database, name: String, method: MethodId)
        requires
            old(db).has_trait(self),
            old(db).trait_(self).default_methods.wf(),
        ensures
            final(db).trait_changed(
                old(db),
                self,
                Trait { default_methods: final(db).trait_(self).default_methods,
                    ..old(db).trait_(self) },
            ),
            final(db).trait_(self).default_methods.wf(),
            final(db).trait_(self).default_methods.entries() == with_entry(
                old(db).trait_(self).default_methods.entries(),
                name@,
                method.0 as usize,
            ),
            old(db).wf() && old(db).has_method(method) ==> final(db).wf(),
    {
        let ghost before = *db;
        db.traits[self.0 as usize].default_methods.insert(name, method.0 as usize);
        proof {
            assert(db.traits@ =~= before.traits@.update(
                self.0 as int,
                Trait { default_methods: db.trait_(self).default_methods, ..before.trait_(self) },
            ));
            if before.wf() && before.has_method(method) {
                assert(before.traits@[self.0 as int].wf(before.bounds()));
                assert(db.traits@[self.0 as int].wf(db.bounds()));
            }
        }
    }

    pub fn add_required_method(self, db: &mut Database, name: String, method: MethodId)
        requires
            old(db).has_trait(self),
            old(db).trait_(self).required_methods.wf(),
        ensures
            final(db).trait_changed(
                old(db),
                self,
                Trait {
                    required_methods: final(db).trait_(self).required_methods,
                    ..old(db).trait_(self)
                },
            ),
            final(db).trait_(self).required_methods.wf(),
            final(db).trait_(self).required_methods.entries() == with_entry(
                old(db).trait_(self).required_methods.entries(),
                name@,
                method.0 as usize,
            ),
            old(db).wf() && old(db).has_method(method) ==> final(db).wf(),
    {
        let ghost before = *db;
        db.traits[self.0 as usize].required_methods.insert(name, method.0 as usize);
        proof {
            assert(db.traits@ =~= before.traits@.update(
                self.0 as int,
                Trait { required_methods: db.trait_(self).required_methods, ..before.trait_(self) },
            ));
            if before.wf() && before.has_method(method) {
                assert(before.traits@[self.0 as int].wf(before.bounds()));
                assert(db.traits@[self.0 as int].wf(db.bounds()));
            }
        }
    }

    pub fn is_generic(self, db: &Database) -> (r: bool)
        requires
            db.has_trait(self),
        ensures
            r == db.trait_(self).generic(),
    {
        db.traits[self.0 as usize].is_generic()
    }

    pub fn number_of_type_parameters(&self, db: &Database) -> (r: usize)
        requires
            db.has_trait(*self),
        ensures
            r == db.trait_(*self).type_parameters.entries().len(),
    {
        db.traits[self.0 as usize].type_parameters.len()
    }

    pub fn type_parameter_exists(&self, db: &Database, name: &str) -> (r: bool)
        requires
            db.has_trait(*self),
            db.trait_(*self).type_parameters.wf(),
        ensures
            r == holds_name(db.trait_(*self).type_parameters.entries(), name@),
    {
        db.traits[self.0 as usize].type_parameters.contains_key(name)
    }

    /// Adds a type parameter named `name` to the database and to the trait.
    pub fn new_type_parameter(&self, db: &mut Database, name: String) -> (id: TypeParameterId)
        requires
            old(db).has_trait(*self),
            old(db).type_parameters@.len() < u32::MAX,
            old(db).trait_(*self).type_parameters.wf(),
        ensures
            id.0 == old(db).type_parameters@.len(),
            final(db).type_parameters@
                == old(db).type_parameters@.push(final(db).type_parameter(id)),
            final(db).type_parameter(id).name == name,
            final(db).type_parameter(id).requirements@.len() == 0,
            !final(db).type_parameter(id).mutable,
            !final(db).type_parameter(id).stack,
            final(db).type_parameter(id).original is None,
            final(db).traits@ == old(db).traits@.update(
                self.0 as int,
                Trait { type_parameters: final(db).trait_(*self).type_parameters,
                    ..old(db).trait_(*self) },
            ),
            final(db).trait_(*self).type_parameters.wf(),
            final(db).trait_(*self).type_parameters.entries() == with_entry(
                old(db).trait_(*self).type_parameters.entries(),
                name@,
                id.0,
            ),
            final(db).same_but(old(db), set![Table::Traits, Table::TypeParameters]),
            old(db).wf() ==> final(db).wf(),
    {
        let ghost before = *db;
        let param = TypeParameter::allocate(db, name.clone());
        let ghost mid = *db;

        db.traits[self.0 as usize].type_parameters.insert(name, param.0);
        proof {
            assert(db.traits@ =~= before.traits@.update(
                self.0 as int,
                Trait { type_parameters: db.trait_(*self).type_parameters, ..before.trait_(*self) },
            ));
            if before.wf() {
                assert(mid.wf());
                assert(mid.traits@[self.0 as int].wf(mid.bounds()));
                assert(db.traits@[self.0 as int].wf(db.bounds()));
            }
        }
        param
    }

    pub fn is_public(self, db: &Database) -> (r: bool)
        requires
            db.has_trait(self),
        ensures
            r == (db.trait_(self).visibility is Public),
    {
        db.traits[self.0 as usize].visibility == Visibility::Public
    }

    pub fn is_private(self, db: &Database) -> (r: bool)
        requires
            db.has_trait(self),
        ensures
            r == !(db.trait_(self).visibility is Public),
    {
        !self.is_public(db)
    }

    /// The type arguments that the trait inherits from the traits it requires.
    pub fn inherited_type_arguments(self, db: &Database) -> (r: &TypeArguments)
        requires
            db.has_trait(self),
        ensures
            *r == db.trait_(self).inherited_type_arguments,
    {
        &db.traits[self.0 as usize].inherited_type_arguments
    }

    pub fn location(self, db: &Database) -> (r: Location)
        requires
            db.has_trait(self),
        ensures
            r == db.trait_(self).location,
    {
        db.traits[self.0 as usize].location
    }

    pub fn set_documentation(self, db: &mut Database, value: String)
        requires
            old(db).has_trait(self),
        ensures
            final(db).trait_changed(
                old(db),
                self,
                Trait { documentation: value, ..old(db).trait_(self) },
            ),
            old(db).wf() ==> final(db).wf(),
    {
        db.traits[self.0 as usize].documentation = value;
    }

    pub fn documentation(self, db: &Database) -> (r: &String)
        requires
            db.has_trait(self),
        ensures
            *r == db.trait_(self).documentation,
    {
        &db.traits[self.0 as usize].documentation
    }

    /// The type parameter of the trait that is named `name`, as a symbol.
    pub fn named_type(self, db: &Database, name: &str) -> (r: Option<Symbol>)
        requires
            db.has_trait(self),
            db.trait_(self).type_parameters.wf(),
        ensures
            r == type_parameter_symbol(&db.trait_(self).type_parameters, name@),
    {
        match db.traits[self.0 as usize].type_parameters.get(name) {
            Some(id) => Some(Symbol::TypeParameter(TypeParameterId(id))),
            None => None,
        }
    }

    pub fn module(self, db: &Database) -> (r: ModuleId)
        requires
            db.has_trait(self),
        ensures
            r == db.trait_(self).module,
    {
        db.traits[self.0 as usize].module
    }
}

} // verus!
