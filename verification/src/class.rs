//! Classes.
use vstd::prelude::*;
use crate::arguments::TraitImplementation;
use crate::collections::copies::{
    constructor_ids, constructors_of, field_ids, fields_of, parameter_ids, parameters_of,
};
use crate::collections::id_map::IdMap;
use crate::collections::name_index::{holds_name, with_entry, NameIndex};
use crate::collections::name_map::NameMap;
use crate::collections::seq_map::SeqMap;
use crate::database::{
    type_parameter_symbol, Class, Constructor, Database, Field, Table, TypeParameter,
};
use crate::kinds::{ClassKind, Storage, Symbol, Visibility};
use crate::location::Location;
use crate::method::instance_kind;
use crate::type_ref::{
    Bounds, ClassId, ConstructorId, FieldId, MethodId, ModuleId, Shape, TraitId, TypeParameterId,
        TypeRef,
};
use crate::{BOOL_ID, DEFAULT_BUILTIN_MODULE_ID, FLOAT_ID, INT_ID};

verus! {

impl Class {
    /// The class has the given attributes and nothing else: no fields, type
    /// parameters, methods, traits, constructors or specializations, no
    /// documentation and no destructor.
    pub open spec fn fresh(
        &self,
        name: String,
        kind: ClassKind,
        visibility: Visibility,
        module: ModuleId,
        location: Location,
        storage: Storage,
    ) -> bool {
        &&& self.name == name
        &&& self.kind == kind
        &&& self.visibility == visibility
        &&& self.module == module
        &&& self.location == location
        &&& self.storage == storage
        &&& self.documentation@.len() == 0
        &&& !self.destructor
        &&& self.fields.entries().len() == 0
        &&& self.type_parameters.entries().len() == 0
        &&& self.constructors.entries().len() == 0
        &&& self.methods@ == Map::<Seq<char>, MethodId>::empty()
        &&& self.methods.order().len() == 0
        &&& self.implemented_traits@ == Map::<usize, TraitImplementation>::empty()
        &&& self.specializations@ == Map::<Seq<Shape>, ClassId>::empty()
        &&& self.specialization_source is None
        &&& self.shapes@.len() == 0
    }

    /// The storage that a new class of kind `kind` has: the C structures live
    /// on the stack, everything else on the heap.
    pub open spec fn default_storage(kind: ClassKind) -> Storage {
        if kind is Extern {
            Storage::Stack
        } else {
            Storage::Heap
        }
    }

    /// Adds a class to the database and returns its ID.
    pub fn allocate(
        db: &mut Database,
        name: String,
        kind: ClassKind,
        visibility: Visibility,
        module: ModuleId,
        location: Location,
    ) -> (id: ClassId)
        requires
            old(db).classes@.len() < u32::MAX,
        ensures
            id.0 == old(db).classes@.len(),
            final(db).class_added(old(db), final(db).class(id)),
            final(db).class(id).fresh(
                name,
                kind,
                visibility,
                module,
                location,
                Class::default_storage(kind),
            ),
            old(db).wf() ==> final(db).wf(),
    {
        let class = Class::new(name, kind, visibility, module, location);

        Class::add(db, class)
    }

    /// Adds `class` to the database and returns its ID.
    pub fn add(db: &mut Database, class: Class) -> (id: ClassId)
        requires
            old(db).classes@.len() < u32::MAX,
        ensures
            id.0 == old(db).classes@.len(),
            final(db).class_added(old(db), class),
            old(db).wf() && class.wf(old(db).bounds()) ==> final(db).wf(),
    {
        let id = db.classes.len() as u32;
        let ghost before = *db;
        db.classes.push(class);
        proof {
            if before.wf() && class.wf(before.bounds()) {
                before.lemma_wf_in_grows(before.bounds(), db.bounds());
            }
        }
        ClassId(id)
    }

    pub fn new(
        name: String,
        kind: ClassKind,
        visibility: Visibility,
        module: ModuleId,
        location: Location,
    ) -> (r: Self)
        ensures
            r.fresh(name, kind, visibility, module, location, Class::default_storage(kind)),
            forall|b| r.wf(b),
    {
        let storage = if let ClassKind::Extern = kind {
            Storage::Stack
        } else {
            Storage::Heap
        };

        Class {
            name,
            documentation: String::new(),
            kind,
            visibility,
            storage,
            destructor: false,
            fields: NameIndex::new(),
            type_parameters: NameIndex::new(),
            methods: NameMap::new(),
            implemented_traits: IdMap::new(),
            constructors: NameIndex::new(),
            module,
            location,
            specializations: SeqMap::new(),
            specialization_source: None,
            shapes: Vec::new(),
        }
    }

    /// A public built-in class that lives on the heap.
    pub fn regular(name: String) -> (r: Self)
        ensures
            r.fresh(
                name,
                ClassKind::Regular,
                Visibility::Public,
                ModuleId(DEFAULT_BUILTIN_MODULE_ID),
                Location::spec_default(),
                Storage::Heap,
            ),
            forall|b| r.wf(b),
    {
        Class::new(
            name,
            ClassKind::Regular,
            Visibility::Public,
            ModuleId(DEFAULT_BUILTIN_MODULE_ID),
            Location::default(),
        )
    }

    /// A public built-in class that lives on the stack.
    pub fn value_type(name: String) -> (r: Self)
        ensures
            r.fresh(
                name,
                ClassKind::Regular,
                Visibility::Public,
                ModuleId(DEFAULT_BUILTIN_MODULE_ID),
                Location::spec_default(),
                Storage::Stack,
            ),
            forall|b| r.wf(b),
    {
        let mut cls = Class::new(
            name,
            ClassKind::Regular,
            Visibility::Public,
            ModuleId(DEFAULT_BUILTIN_MODULE_ID),
            Location::default(),
        );

        let ghost before = cls;
        cls.storage = Storage::Stack;
        proof {
            assert forall|b: Bounds| cls.wf(b) by {
                assert(before.wf(b));
            }
        }
        cls
    }

    /// A public built-in class of which the instances are shared using atomic
    /// reference counting.
    pub fn atomic(name: String) -> (r: Self)
        ensures
            r.fresh(
                name,
                ClassKind::Atomic,
                Visibility::Public,
                ModuleId(DEFAULT_BUILTIN_MODULE_ID),
                Location::spec_default(),
                Storage::Heap,
            ),
            forall|b| r.wf(b),
    {
        Class::new(
            name,
            ClassKind::Atomic,
            Visibility::Public,
            ModuleId(DEFAULT_BUILTIN_MODULE_ID),
            Location::default(),
        )
    }

    /// A public built-in tuple class.
    pub fn tuple(name: String) -> (r: Self)
        ensures
            r.fresh(
                name,
                ClassKind::Tuple,
                Visibility::Public,
                ModuleId(DEFAULT_BUILTIN_MODULE_ID),
                Location::spec_default(),
                Storage::Heap,
            ),
            forall|b| r.wf(b),
    {
        Class::new(
            name,
            ClassKind::Tuple,
            Visibility::Public,
            ModuleId(DEFAULT_BUILTIN_MODULE_ID),
            Location::default(),
        )
    }

    pub fn is_generic(&self) -> (r: bool)
        ensures
            r == self.generic(),
    {
        !self.type_parameters.is_empty()
    }
}

impl ClassId {
    pub fn name(self, db: &Database) -> (r: &String)
        requires
            db.has_class(self),
        ensures
            *r == db.class(self).name,
    {
        &db.classes[self.0 as usize].name
    }

    pub fn kind(self, db: &Database) -> (r: ClassKind)
        requires
            db.has_class(self),
        ensures
            r == db.class(self).kind,
    {
        db.classes[self.0 as usize].kind
    }

    /// Traits can be implemented for every class but processes and C
    /// structures.
    pub fn allow_trait_implementations(self, db: &Database) -> (r: bool)
        requires
            db.has_class(self),
        ensures
            r == !(db.class(self).kind is Async || db.class(self).kind is Extern),
    {
        !matches!(self.kind(db), ClassKind::Async | ClassKind::Extern)
    }

    /// The type parameters of the class, in the order of their definition.
    pub fn type_parameters(self, db: &Database) -> (r: Vec<TypeParameterId>)
        requires
            db.has_class(self),
        ensures
            r@ == parameters_of(&db.class(self).type_parameters),
            db.wf() ==> forall|i: int| 0 <= i < r@.len() ==>
                db.has_type_parameter(#[trigger] r@[i]),
    {
        proof {
            if db.wf() {
                assert(db.classes@[self.0 as int].wf(db.bounds()));
            }
        }
        parameter_ids(&db.classes[self.0 as usize].type_parameters)
    }

    /// Records that the class implements a trait, both with the class and with
    /// the trait. An implementation of the same trait that was recorded before
    /// is replaced.
    pub fn add_trait_implementation(self, db: &mut Database, implementation: TraitImplementation)
        requires
            old(db).has_class(self),
            old(db).has_trait(implementation.instance.instance_of),
            old(db).class(self).implemented_traits.wf(),
        ensures
            final(db).classes@ == old(db).classes@.update(
                self.0 as int,
                Class {
                    implemented_traits: final(db).class(self).implemented_traits,
                    ..old(db).class(self)
                },
            ),
            final(db).class(self).implemented_traits@
                == old(db).class(self).implemented_traits@.insert(
                implementation.instance.instance_of.0 as usize,
                implementation,
            ),
            final(db).traits@ == old(db).traits@.update(
                implementation.instance.instance_of.0 as int,
                final(db).trait_(implementation.instance.instance_of),
            ),
            final(db).trait_(implementation.instance.instance_of).implemented_by@ == old(db).trait_(
                implementation.instance.instance_of,
            ).implemented_by@.push(self),
            final(db).trait_(implementation.instance.instance_of).same_but_implemented_by(
                &old(db).trait_(implementation.instance.instance_of),
            ),
            final(db).same_but(old(db), set![Table::Classes, Table::Traits]),
            old(db).wf() && implementation.bounds.wf() ==> final(db).wf(),
    {
        let trait_id = implementation.instance.instance_of();
        let ghost before = *db;

        db.classes[self.0 as usize].implemented_traits.insert(trait_id.0 as usize, implementation);
        db.traits[trait_id.0 as usize].implemented_by.push(self);
        proof {
            assert(db.classes@ =~= before.classes@.update(
                self.0 as int,
                Class {
                    implemented_traits: db.class(self).implemented_traits,
                    ..before.class(self)
                },
            ));
            assert(db.traits@ =~= before.traits@.update(trait_id.0 as int, db.trait_(trait_id)));
            if before.wf() && implementation.bounds.wf() {
                assert(before.classes@[self.0 as int].wf(before.bounds()));
                assert(before.traits@[trait_id.0 as int].wf(before.bounds()));
                assert(db.classes@[self.0 as int].wf(db.bounds()));
                assert(db.traits@[trait_id.0 as int].wf(db.bounds()));
            }
        }
    }

    /// The implementation of `trait_type` for the class, if there is one.
    pub fn trait_implementation(self, db: &Database, trait_type: TraitId) -> (r: Option<
        &TraitImplementation,
    >)
        requires
            db.has_class(self),
            db.class(self).implemented_traits.wf(),
        ensures
            match r {
                Some(imp) => db.class(self).implemented_traits@.contains_key(trait_type.0 as usize)
                    && *imp == db.class(self).implemented_traits@[trait_type.0 as usize],
                None => !db.class(self).implemented_traits@.contains_key(trait_type.0 as usize),
            },
    {
        db.classes[self.0 as usize].implemented_traits.get(trait_type.0 as usize)
    }

    /// The implementations of traits for the class, in ascending order of the
    /// IDs of the traits.
    pub fn implemented_traits(self, db: &Database) -> (r: &Vec<TraitImplementation>)
        requires
            db.has_class(self),
        ensures
            *r == db.class(self).implemented_traits.values,
    {
        &db.classes[self.0 as usize].implemented_traits.values
    }

    /// Adds a constructor to the class. Its number within the class is the
    /// number of constructors that the class had.
    pub fn new_constructor(
        self,
        db: &mut Database,
        name: String,
        members: Vec<TypeRef>,
        location: Location,
    ) -> (id: ConstructorId)
        requires
            old(db).has_class(self),
            old(db).class(self).constructors.wf(),
            old(db).class(self).constructors.entries().len() < u16::MAX,
            old(db).constructors@.len() < u32::MAX,
        ensures
            id.0 == old(db).constructors@.len(),
            final(db).constructors@ == old(db).constructors@.push(final(db).constructor(id)),
            final(db).constructor(id).fresh(
                old(db).class(self).constructors.entries().len() as u16,
                name,
                members,
                location,
            ),
            final(db).classes@ == old(db).classes@.update(
                self.0 as int,
                Class { constructors: final(db).class(self).constructors, ..old(db).class(self) },
            ),
            final(db).class(self).constructors.entries() == with_entry(
                old(db).class(self).constructors.entries(),
                name@,
                id.0,
            ),
            final(db).same_but(old(db), set![Table::Classes, Table::Constructors]),
            old(db).wf() && (forall|i: int|
                0 <= i < members@.len() ==> (#[trigger] members@[i]).valid(old(db).bounds()))
                ==> final(db).wf(),
    {
        let ghost before = *db;
        let id = db.classes[self.0 as usize].constructors.len() as u16;
        let constructor = Constructor::allocate(db, id, name.clone(), members, location);
        let ghost mid = *db;

        db.classes[self.0 as usize].constructors.insert(name, constructor.0);
        proof {
            assert(db.classes@ =~= before.classes@.update(
                self.0 as int,
                Class { constructors: db.class(self).constructors, ..before.class(self) },
            ));
            if before.wf() && (forall|i: int|
                0 <= i < members@.len() ==> (#[trigger] members@[i]).valid(before.bounds())) {
                assert(mid.wf());
                assert(mid.classes@[self.0 as int].wf(mid.bounds()));
                assert(db.classes@[self.0 as int].wf(db.bounds()));
            }
        }
        constructor
    }

    /// The type parameter of the class that is named `name`, as a symbol.
    pub fn named_type(self, db: &Database, name: &str) -> (r: Option<Symbol>)
        requires
            db.has_class(self),
            db.class(self).type_parameters.wf(),
        ensures
            r == type_parameter_symbol(&db.class(self).type_parameters, name@),
    {
        match self.type_parameter(db, name) {
            Some(id) => Some(Symbol::TypeParameter(id)),
            None => None,
        }
    }

    pub fn type_parameter(self, db: &Database, name: &str) -> (r: Option<TypeParameterId>)
        requires
            db.has_class(self),
            db.class(self).type_parameters.wf(),
        ensures
            r == (match db.class(self).type_parameters.lookup(name@) {
                Some(id) => Some(TypeParameterId(id)),
                None => None,
            }),
    {
        match db.classes[self.0 as usize].type_parameters.get(name) {
            Some(id) => Some(TypeParameterId(id)),
            None => None,
        }
    }

    pub fn field(self, db: &Database, name: &str) -> (r: Option<FieldId>)
        requires
            db.has_class(self),
            db.class(self).fields.wf(),
        ensures
            r == (match db.class(self).fields.lookup(name@) {
                Some(id) => Some(FieldId(id)),
                None => None,
            }),
    {
        match db.classes[self.0 as usize].fields.get(name) {
            Some(id) => Some(FieldId(id)),
            None => None,
        }
    }

    /// The field that was added to the class as number `index`, counting from
    /// zero.
    pub fn field_by_index(self, db: &Database, index: usize) -> (r: Option<FieldId>)
        requires
            db.has_class(self),
        ensures
            r == (if index < db.class(self).fields.entries().len() {
                Some(FieldId(db.class(self).fields.entries()[index as int].1))
            } else {
                None
            }),
    {
        match db.classes[self.0 as usize].fields.id_at(index) {
            Some(id) => Some(FieldId(id)),
            None => None,
        }
    }

    /// The names of the fields, in the order in which the fields were added.
    pub fn field_names(self, db: &Database) -> (r: Vec<String>)
        requires
            db.has_class(self),
        ensures
            r@.len() == db.class(self).fields.entries().len(),
            forall|i: int| 0 <= i < r@.len() ==> r@[i]@ == db.class(self).fields.entries()[i].0,
    {
        db.classes[self.0 as usize].fields.keys()
    }

    /// The fields, in the order in which they were added.
    pub fn fields(self, db: &Database) -> (r: Vec<FieldId>)
        requires
            db.has_class(self),
        ensures
            r@ == fields_of(&db.class(self).fields, 0),
            db.wf() ==> forall|i: int| 0 <= i < r@.len() ==> db.has_field(#[trigger] r@[i]),
    {
        proof {
            if db.wf() {
                assert(db.classes@[self.0 as int].wf(db.bounds()));
            }
        }
        field_ids(&db.classes[self.0 as usize].fields, 0)
    }

    /// Adds a field to the class.
    pub fn new_field(
        self,
        db: &mut Database,
        name: String,
        index: usize,
        value_type: TypeRef,
        visibility: Visibility,
        module: ModuleId,
        location: Location,
    ) -> (id: FieldId)
        requires
            old(db).has_class(self),
            old(db).class(self).fields.wf(),
            old(db).class(self).fields.entries().len() < u16::MAX,
            old(db).fields@.len() < u32::MAX,
        ensures
            id.0 == old(db).fields@.len(),
            final(db).fields@ == old(db).fields@.push(final(db).field(id)),
            final(db).field(id).name == name,
            final(db).field(id).index == index,
            final(db).field(id).value_type == value_type,
            final(db).field(id).visibility == visibility,
            final(db).field(id).module == module,
            final(db).field(id).location == location,
            final(db).field(id).documentation@.len() == 0,
            final(db).classes@ == old(db).classes@.update(
                self.0 as int,
                Class { fields: final(db).class(self).fields, ..old(db).class(self) },
            ),
            final(db).class(self).fields.entries() == with_entry(
                old(db).class(self).fields.entries(),
                name@,
                id.0,
            ),
            final(db).same_but(old(db), set![Table::Classes, Table::Fields]),
            old(db).wf() && value_type.valid(old(db).bounds()) ==> final(db).wf(),
    {
        let ghost before = *db;
        let id = Field::allocate(db, name.clone(), index, value_type, visibility, module, location);
        let ghost mid = *db;

        db.classes[self.0 as usize].fields.insert(name, id.0);
        proof {
            assert(db.classes@ =~= before.classes@.update(
                self.0 as int,
                Class { fields: db.class(self).fields, ..before.class(self) },
            ));
            if before.wf() && value_type.valid(before.bounds()) {
                assert(mid.wf());
                assert(mid.classes@[self.0 as int].wf(mid.bounds()));
                assert(db.classes@[self.0 as int].wf(db.bounds()));
            }
        }
        id
    }

    pub fn is_generic(self, db: &Database) -> (r: bool)
        requires
            db.has_class(self),
        ensures
            r == db.class(self).generic(),
    {
        db.classes[self.0 as usize].is_generic()
    }

    /// The method that the class itself defines under `name`.
    pub fn method(self, db: &Database, name: &str) -> (r: Option<MethodId>)
        requires
            db.has_class(self),
        ensures
            r == db.class(self).methods.lookup(name@),
            db.wf() && r is Some ==> db.has_method(r.unwrap()),
    {
        proof {
            if db.wf() {
                assert(db.classes@[self.0 as int].wf(db.bounds()));
            }
        }
        db.classes[self.0 as usize].methods.get(name)
    }

    /// The methods that the class itself defines, in the order in which their
    /// names were first added.
    pub fn methods(self, db: &Database) -> (r: Vec<MethodId>)
        requires
            db.has_class(self),
            db.class(self).methods.wf(),
        ensures
            r@ == db.class(self).methods.ordered_values(),
    {
        db.classes[self.0 as usize].methods.values()
    }

    /// The methods of the class that are called on an instance.
    pub fn instance_methods(self, db: &Database) -> (r: Vec<MethodId>)
        requires
            db.wf(),
            db.has_class(self),
        ensures
            r@ == db.class(self).methods.ordered_values().filter(
                |m: MethodId| instance_kind(db.method(m).kind),
            ),
    {
        let all = self.methods(db);
        let ghost pred = |m: MethodId| instance_kind(db.method(m).kind);
        let mut out: Vec<MethodId> = Vec::new();
        let mut i: usize = 0;
        proof {
            assert(db.classes@[self.0 as int].wf(db.bounds()));
            assert(all@.subrange(0, 0) =~= Seq::<MethodId>::empty());
            reveal(Seq::filter);
        }
        while i < all.len()
            invariant
                db.wf(),
                db.has_class(self),
                all@ == db.class(self).methods.ordered_values(),
                pred == |m: MethodId| instance_kind(db.method(m).kind),
                i <= all@.len(),
                out@ == all@.subrange(0, i as int).filter(pred),
            decreases all@.len() - i,
        {
            let method = all[i];
            proof {
                let c = db.classes@[self.0 as int];
                assert(c.wf(db.bounds()));
                assert(c.methods@.contains_key(c.methods.order()[i as int]));
                assert(all@.subrange(0, i + 1).drop_last() =~= all@.subrange(0, i as int));
                reveal(Seq::filter);
            }
            if method.is_instance(db) {
                out.push(method);
            }
            i += 1;
        }
        assert(all@.subrange(0, all@.len() as int) =~= all@);
        out
    }

    /// The methods of the class that are called on the class itself.
    pub fn static_methods(self, db: &Database) -> (r: Vec<MethodId>)
        requires
            db.wf(),
            db.has_class(self),
        ensures
            r@ == db.class(self).methods.ordered_values().filter(
                |m: MethodId| db.method(m).kind is Static || db.method(m).kind is Constructor,
            ),
    {
        let all = self.methods(db);
        let ghost pred = |m: MethodId| db.method(m).kind is Static
            || db.method(m).kind is Constructor;
        let mut out: Vec<MethodId> = Vec::new();
        let mut i: usize = 0;
        proof {
            assert(db.classes@[self.0 as int].wf(db.bounds()));
            assert(all@.subrange(0, 0) =~= Seq::<MethodId>::empty());
            reveal(Seq::filter);
        }
        while i < all.len()
            invariant
                db.wf(),
                db.has_class(self),
                all@ == db.class(self).methods.ordered_values(),
                pred == |m: MethodId|
                    db.method(m).kind is Static || db.method(m).kind is Constructor,
                i <= all@.len(),
                out@ == all@.subrange(0, i as int).filter(pred),
            decreases all@.len() - i,
        {
            let method = all[i];
            proof {
                let c = db.classes@[self.0 as int];
                assert(c.wf(db.bounds()));
                assert(c.methods@.contains_key(c.methods.order()[i as int]));
                assert(all@.subrange(0, i + 1).drop_last() =~= all@.subrange(0, i as int));
                reveal(Seq::filter);
            }
            if method.is_static(db) {
                out.push(method);
            }
            i += 1;
        }
        assert(all@.subrange(0, all@.len() as int) =~= all@);
        out
    }

    pub fn method_exists(self, db: &Database, name: &str) -> (r: bool)
        requires
            db.has_class(self),
        ensures
            r == db.class(self).methods@.contains_key(name@),
    {
        db.classes[self.0 as usize].methods.contains_key(name)
    }

    /// Adds `method` to the class under `name`, in place of the method that
    /// the class had under that name, if any.
    pub fn add_method(self, db: &mut Database, name: String, method: MethodId)
        requires
            old(db).has_class(self),
            old(db).class(self).methods.wf(),
        ensures
            final(db).class_changed(
                old(db),
                self,
                Class { methods: final(db).class(self).methods, ..old(db).class(self) },
            ),
            final(db).class(self).methods.wf(),
            final(db).class(self).methods@ == old(db).class(self).methods@.insert(name@, method),
            final(db).class(self).methods.order() == (if old(db).class(self).methods@.contains_key(
                name@,
            ) {
                old(db).class(self).methods.order()
            } else {
                old(db).class(self).methods.order().push(name@)
            }),
            old(db).wf() && old(db).has_method(method) ==> final(db).wf(),
    {
        let ghost before = *db;
        db.classes[self.0 as usize].methods.insert(name, method);
        proof {
            assert(db.classes@ =~= before.classes@.update(
                self.0 as int,
                Class { methods: db.class(self).methods, ..before.class(self) },
            ));
            if before.wf() && before.has_method(method) {
                assert(before.classes@[self.0 as int].wf(before.bounds()));
                assert(db.classes@[self.0 as int].wf(db.bounds()));
            }
        }
    }

    pub fn constructor(self, db: &Database, name: &str) -> (r: Option<ConstructorId>)
        requires
            db.has_class(self),
            db.class(self).constructors.wf(),
        ensures
            r == (match db.class(self).constructors.lookup(name@) {
                Some(id) => Some(ConstructorId(id)),
                None => None,
            }),
    {
        match db.classes[self.0 as usize].constructors.get(name) {
            Some(id) => Some(ConstructorId(id)),
            None => None,
        }
    }

    /// The constructors, in the order in which they were added.
    pub fn constructors(self, db: &Database) -> (r: Vec<ConstructorId>)
        requires
            db.has_class(self),
        ensures
            r@ == constructors_of(&db.class(self).constructors),
    {
        constructor_ids(&db.classes[self.0 as usize].constructors)
    }

    pub fn number_of_constructors(self, db: &Database) -> (r: usize)
        requires
            db.has_class(self),
        ensures
            r == db.class(self).constructors.entries().len(),
    {
        db.classes[self.0 as usize].constructors.len()
    }

    pub fn number_of_fields(self, db: &Database) -> (r: usize)
        requires
            db.has_class(self),
        ensures
            r == db.class(self).fields.entries().len(),
    {
        db.classes[self.0 as usize].fields.len()
    }

    pub fn number_of_methods(self, db: &Database) -> (r: usize)
        requires
            db.has_class(self),
        ensures
            r == db.class(self).methods.order().len(),
    {
        db.classes[self.0 as usize].methods.len()
    }

    /// The fields of an enum class that hold the members of its constructors:
    /// all fields but the first, which holds the tag. Other classes have no
    /// such fields.
    pub fn enum_fields(self, db: &Database) -> (r: Vec<FieldId>)
        requires
            db.has_class(self),
            db.class(self).kind is Enum ==> db.class(self).fields.entries().len() >= 1,
        ensures
            r@ == (if db.class(self).kind is Enum {
                fields_of(&db.class(self).fields, 1)
            } else {
                Seq::<FieldId>::empty()
            }),
    {
        if let ClassKind::Enum = db.classes[self.0 as usize].kind {
            // The first value is the tag, so we skip it.
            field_ids(&db.classes[self.0 as usize].fields, 1)
        } else {
            Vec::new()
        }
    }

    pub fn is_public(self, db: &Database) -> (r: bool)
        requires
            db.has_class(self),
        ensures
            r == (db.class(self).visibility is Public),
    {
        db.classes[self.0 as usize].visibility == Visibility::Public
    }

    pub fn is_private(self, db: &Database) -> (r: bool)
        requires
            db.has_class(self),
        ensures
            r == !(db.class(self).visibility is Public),
    {
        !self.is_public(db)
    }

    pub fn is_atomic(self, db: &Database) -> (r: bool)
        requires
            db.has_class(self),
        ensures
            r == (db.class(self).kind is Async || db.class(self).kind is Atomic),
    {
        self.kind(db).is_atomic()
    }

    pub fn set_module(self, db: &mut Database, module: ModuleId)
        requires
            old(db).has_class(self),
        ensures
            final(db).class_changed(old(db), self, Class { module, ..old(db).class(self) }),
            old(db).wf() ==> final(db).wf(),
    {
        db.classes[self.0 as usize].module = module;
    }

    pub fn module(self, db: &Database) -> (r: ModuleId)
        requires
            db.has_class(self),
        ensures
            r == db.class(self).module,
    {
        db.classes[self.0 as usize].module
    }

    pub fn set_shapes(self, db: &mut Database, shapes: Vec<Shape>)
        requires
            old(db).has_class(self),
        ensures
            final(db).class_changed(old(db), self, Class { shapes, ..old(db).class(self) }),
            old(db).wf() ==> final(db).wf(),
    {
        db.classes[self.0 as usize].shapes = shapes;
    }

    pub fn specialization_source(self, db: &Database) -> (r: Option<ClassId>)
        requires
            db.has_class(self),
        ensures
            r == db.class(self).specialization_source,
    {
        db.classes[self.0 as usize].specialization_source
    }

    pub fn set_specialization_source(self, db: &mut Database, class: ClassId)
        requires
            old(db).has_class(self),
        ensures
            final(db).class_changed(
                old(db),
                self,
                Class { specialization_source: Some(class), ..old(db).class(self) },
            ),
            old(db).wf() ==> final(db).wf(),
    {
        db.classes[self.0 as usize].specialization_source = Some(class);
    }

    /// The specializations of the class, by the shapes they were made for.
    pub fn specializations(self, db: &Database) -> (r: &SeqMap<Shape, ClassId>)
        requires
            db.has_class(self),
        ensures
            *r == db.class(self).specializations,
    {
        &db.classes[self.0 as usize].specializations
    }

    /// Records `class` as the specialization of this class for `shapes`.
    pub fn add_specialization(self, db: &mut Database, shapes: Vec<Shape>, class: ClassId)
        requires
            old(db).has_class(self),
            old(db).class(self).specializations.wf(),
        ensures
            final(db).class_changed(
                old(db),
                self,
                Class { specializations: final(db).class(self).specializations,
                    ..old(db).class(self) },
            ),
            final(db).class(self).specializations.wf(),
            final(db).class(self).specializations@ == old(db).class(self).specializations@.insert(
                shapes@,
                class,
            ),
            old(db).wf() ==> final(db).wf(),
    {
        let ghost before = *db;
        db.classes[self.0 as usize].specializations.insert(shapes, class);
        proof {
            assert(db.classes@ =~= before.classes@.update(
                self.0 as int,
                Class { specializations: db.class(self).specializations, ..before.class(self) },
            ));
            if before.wf() {
                assert(before.classes@[self.0 as int].wf(before.bounds()));
                assert(db.classes@[self.0 as int].wf(db.bounds()));
            }
        }
    }

    pub fn shapes(self, db: &Database) -> (r: &Vec<Shape>)
        requires
            db.has_class(self),
        ensures
            *r == db.class(self).shapes,
    {
        &db.classes[self.0 as usize].shapes
    }

    pub fn number_of_type_parameters(self, db: &Database) -> (r: usize)
        requires
            db.has_class(self),
        ensures
            r == db.class(self).type_parameters.entries().len(),
    {
        db.classes[self.0 as usize].type_parameters.len()
    }

    pub fn type_parameter_exists(self, db: &Database, name: &str) -> (r: bool)
        requires
            db.has_class(self),
            db.class(self).type_parameters.wf(),
        ensures
            r == holds_name(db.class(self).type_parameters.entries(), name@),
    {
        db.classes[self.0 as usize].type_parameters.contains_key(name)
    }

    /// Adds a type parameter named `name` to the database and to the class.
    pub fn new_type_parameter(self, db: &mut Database, name: String) -> (id: TypeParameterId)
        requires
            old(db).has_class(self),
            old(db).type_parameters@.len() < u32::MAX,
            old(db).class(self).type_parameters.wf(),
        ensures
            id.0 == old(db).type_parameters@.len(),
            final(db).type_parameters@
                == old(db).type_parameters@.push(final(db).type_parameter(id)),
            final(db).type_parameter(id).name == name,
            final(db).type_parameter(id).requirements@.len() == 0,
            !final(db).type_parameter(id).mutable,
            !final(db).type_parameter(id).stack,
            final(db).type_parameter(id).original is None,
            final(db).classes@ == old(db).classes@.update(
                self.0 as int,
                Class { type_parameters: final(db).class(self).type_parameters,
                    ..old(db).class(self) },
            ),
            final(db).class(self).type_parameters.wf(),
            final(db).class(self).type_parameters.entries() == with_entry(
                old(db).class(self).type_parameters.entries(),
                name@,
                id.0,
            ),
            final(db).same_but(old(db), set![Table::Classes, Table::TypeParameters]),
            old(db).wf() ==> final(db).wf(),
    {
        let ghost before = *db;
        let param = TypeParameter::allocate(db, name.clone());
        let ghost mid = *db;

        db.classes[self.0 as usize].type_parameters.insert(name, param.0);
        proof {
            assert(db.classes@ =~= before.classes@.update(
                self.0 as int,
                Class { type_parameters: db.class(self).type_parameters, ..before.class(self) },
            ));
            if before.wf() {
                assert(mid.wf());
                assert(mid.classes@[self.0 as int].wf(mid.bounds()));
                assert(db.classes@[self.0 as int].wf(db.bounds()));
            }
        }
        param
    }

    pub fn mark_as_having_destructor(self, db: &mut Database)
        requires
            old(db).has_class(self),
        ensures
            final(db).class_changed(
                old(db),
                self,
                Class { destructor: true, ..old(db).class(self) },
            ),
            old(db).wf() ==> final(db).wf(),
    {
        db.classes[self.0 as usize].destructor = true;
    }

    pub fn has_destructor(self, db: &Database) -> (r: bool)
        requires
            db.has_class(self),
        ensures
            r == db.class(self).destructor,
    {
        db.classes[self.0 as usize].destructor
    }

    /// True if instances of the class can be copied freely: they live on the
    /// stack, or on the heap with atomic reference counting.
    pub fn is_value_type(self, db: &Database) -> (r: bool)
        requires
            db.has_class(self),
        ensures
            r == db.class(self).copied_freely(),
    {
        let typ = &db.classes[self.0 as usize];

        match typ.kind {
            // These types are allocated on the heap but treated as value types.
            ClassKind::Async | ClassKind::Atomic => true,
            _ => matches!(typ.storage, Storage::Stack),
        }
    }

    pub fn is_heap_allocated(self, db: &Database) -> (r: bool)
        requires
            db.has_class(self),
        ensures
            r == (db.class(self).storage is Heap),
    {
        matches!(db.classes[self.0 as usize].storage, Storage::Heap)
    }

    pub fn is_stack_allocated(self, db: &Database) -> (r: bool)
        requires
            db.has_class(self),
        ensures
            r == (db.class(self).storage is Stack),
    {
        matches!(db.classes[self.0 as usize].storage, Storage::Stack)
    }

    /// Heap objects have an object header and stack objects have none.
    pub fn has_object_header(self, db: &Database) -> (r: bool)
        requires
            db.has_class(self),
        ensures
            r == (db.class(self).storage is Heap),
    {
        !self.is_stack_allocated(db)
    }

    pub fn is_closure(self, db: &Database) -> (r: bool)
        requires
            db.has_class(self),
        ensures
            r == (db.class(self).kind is Closure),
    {
        self.kind(db).is_closure()
    }

    /// Only enums, regular classes and tuples that live on the heap have a
    /// header, and so can be cast to a trait.
    pub fn allow_cast_to_trait(self, db: &Database) -> (r: bool)
        requires
            db.has_class(self),
        ensures
            r == ((db.class(self).kind is Enum || db.class(self).kind is Regular || db.class(
                self,
            ).kind is Tuple) && db.class(self).storage is Heap),
    {
        let typ = &db.classes[self.0 as usize];

        match typ.kind {
            ClassKind::Enum | ClassKind::Regular | ClassKind::Tuple => {
                matches!(typ.storage, Storage::Heap)
            },
            // Other types such as closures, processes and extern classes can't
            // ever be casted to a trait.
            _ => false,
        }
    }

    /// Instances that live on the heap can be cast to a C type, and so can
    /// integers, floats and booleans.
    pub fn allow_cast_to_foreign(self, db: &Database) -> (r: bool)
        requires
            db.has_class(self),
        ensures
            r == (db.class(self).storage is Heap || self.0 == INT_ID || self.0 == FLOAT_ID || self.0
                == BOOL_ID),
    {
        matches!(db.classes[self.0 as usize].storage, Storage::Heap) || self.0 == INT_ID || self.0
            == FLOAT_ID || self.0 == BOOL_ID
    }

    pub fn documentation(self, db: &Database) -> (r: &String)
        requires
            db.has_class(self),
        ensures
            *r == db.class(self).documentation,
    {
        &db.classes[self.0 as usize].documentation
    }

    pub fn set_documentation(self, db: &mut Database, value: String)
        requires
            old(db).has_class(self),
        ensures
            final(db).class_changed(
                old(db),
                self,
                Class { documentation: value, ..old(db).class(self) },
            ),
            old(db).wf() ==> final(db).wf(),
    {
        db.classes[self.0 as usize].documentation = value;
    }

    pub fn location(self, db: &Database) -> (r: Location)
        requires
            db.has_class(self),
        ensures
            r == db.class(self).location,
    {
        db.classes[self.0 as usize].location
    }

    pub fn set_location(self, db: &mut Database, value: Location)
        requires
            old(db).has_class(self),
        ensures
            final(db).class_changed(
                old(db),
                self,
                Class { location: value, ..old(db).class(self) },
            ),
            old(db).wf() ==> final(db).wf(),
    {
        db.classes[self.0 as usize].location = value;
    }

    pub fn set_stack_allocated(self, db: &mut Database)
        requires
            old(db).has_class(self),
        ensures
            final(db).class_changed(
                old(db),
                self,
                Class { storage: Storage::Stack, ..old(db).class(self) },
            ),
            old(db).wf() ==> final(db).wf(),
    {
        db.classes[self.0 as usize].storage = Storage::Stack;
    }

    /// Adds a class to specialize this class into: a class with the same name,
    /// kind, visibility, module, location and storage, and nothing else.
    pub fn clone_for_specialization(self, db: &mut Database) -> (id: ClassId)
        requires
            old(db).has_class(self),
            old(db).classes@.len() < u32::MAX,
        ensures
            id.0 == old(db).classes@.len(),
            final(db).class_added(old(db), final(db).class(id)),
            final(db).class(id).fresh(
                old(db).class(self).name,
                old(db).class(self).kind,
                old(db).class(self).visibility,
                old(db).class(self).module,
                old(db).class(self).location,
                old(db).class(self).storage,
            ),
            old(db).wf() ==> final(db).wf(),
    {
        let src = &db.classes[self.0 as usize];
        let mut new = Class::new(src.name.clone(), src.kind, src.visibility, src.module,
            src.location);

        let ghost made = new;
        new.storage = src.storage;
        proof {
            assert(made.wf(db.bounds()));
            assert(new.wf(db.bounds()));
        }
        Class::add(db, new)
    }

    /// C structures can always be mutated and atomic values never. Other
    /// values can be mutated if they live on the heap.
    pub fn allow_mutating(self, db: &Database) -> (r: bool)
        requires
            db.has_class(self),
        ensures
            r == db.class(self).mutable(),
    {
        let obj = &db.classes[self.0 as usize];

        match obj.kind {
            ClassKind::Extern => true,
            ClassKind::Atomic => false,
            _ => matches!(obj.storage, Storage::Heap),
        }
    }
}

} // verus!
