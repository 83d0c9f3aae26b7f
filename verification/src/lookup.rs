//! Finding methods: on a type, on the traits it implements or requires, and
//! under the rules of visibility.
use vstd::prelude::*;
use crate::arguments::TraitImplementation;
use crate::database::{type_parameter_symbol, Database, Module, ModuleSymbol};
use crate::kinds::{MethodLookup, Symbol, Visibility};
use crate::module_name::same_root_namespace;
use crate::type_ref::{
    ClassId, MethodId, ModuleId, TraitId, TraitInstance, TypeId, TypeParameterId,
};

verus! {

/// The method named `name` that the trait `id` defines itself, or, unless only
/// methods with a body are asked for, that it requires.
pub open spec fn own_method(db: &Database, id: TraitId, name: Seq<char>,
    defaults_only: bool) -> Option<
    MethodId,
> {
    match db.trait_(id).default_methods.lookup(name) {
        Some(method) => Some(MethodId(method as u32)),
        None => match db.trait_(id).required_methods.lookup(name) {
            Some(method) if !defaults_only => Some(MethodId(method as u32)),
            _ => None,
        },
    }
}

/// The method named `name` of the trait `id`, searching at most `fuel` levels
/// of required traits: the method of the trait itself, or else the first that
/// is found in the traits it requires, in the order in which they were added.
/// The outer result is nothing if the search has not come to an end within
/// `fuel` levels.
pub open spec fn trait_method(
    db: &Database,
    id: TraitId,
    name: Seq<char>,
    defaults_only: bool,
    fuel: nat,
) -> Option<Option<MethodId>>
    decreases fuel, 0nat,
{
    match own_method(db, id, name, defaults_only) {
        Some(method) => Some(Some(method)),
        None => if fuel == 0 {
            None
        } else {
            required_method(
                db,
                db.trait_(id).required_traits@,
                0,
                name,
                defaults_only,
                (fuel - 1) as nat,
            )
        },
    }
}

/// The first method named `name` that is found in the traits of `required`
/// from place `from` on.
pub open spec fn required_method(
    db: &Database,
    required: Seq<TraitInstance>,
    from: int,
    name: Seq<char>,
    defaults_only: bool,
    fuel: nat,
) -> Option<Option<MethodId>>
    decreases fuel, 1 + required.len() - from,
{
    if from < 0 || from >= required.len() {
        Some(None)
    } else {
        match trait_method(db, required[from].instance_of, name, defaults_only, fuel) {
            None => None,
            Some(Some(method)) => Some(Some(method)),
            Some(None) => required_method(db, required, from + 1, name, defaults_only, fuel),
        }
    }
}

/// The search for a method named `name` in the trait `id` and the traits it
/// requires comes to an end: no trait requires itself through others.
pub open spec fn trait_search_ends(
    db: &Database,
    id: TraitId,
    name: Seq<char>,
    defaults_only: bool,
) -> bool {
    exists|fuel: nat| trait_method(db, id, name, defaults_only, fuel) is Some
}

/// The number of levels that the search for a method named `name` in the
/// trait `id` takes.
pub open spec fn trait_search_fuel(
    db: &Database,
    id: TraitId,
    name: Seq<char>,
    defaults_only: bool,
) -> nat {
    choose|fuel: nat| trait_method(db, id, name, defaults_only, fuel) is Some
}

/// The first method named `name` that is found in the traits of
/// `requirements` from place `from` on, each searched with the traits it
/// requires.
pub open spec fn first_method(
    db: &Database,
    requirements: Seq<TraitInstance>,
    from: int,
    name: Seq<char>,
) -> Option<MethodId>
    decreases requirements.len() - from,
{
    if from < 0 || from >= requirements.len() {
        None
    } else {
        match requirements[from].instance_of.spec_method(db, name) {
            Some(method) => Some(method),
            None => first_method(db, requirements, from + 1, name),
        }
    }
}

/// The first method named `name` with a body that is found in the traits of
/// `implemented` from place `from` on, each searched with the traits it
/// requires.
pub open spec fn implemented_method(
    db: &Database,
    implemented: Seq<TraitImplementation>,
    from: int,
    name: Seq<char>,
) -> Option<MethodId>
    decreases implemented.len() - from,
{
    if from < 0 || from >= implemented.len() {
        None
    } else {
        match implemented[from].instance.instance_of.spec_default_method(db, name) {
            Some(method) => Some(method),
            None => implemented_method(db, implemented, from + 1, name),
        }
    }
}

impl TraitId {
    /// The method named `name` of the trait: see `trait_method`.
    pub open spec fn spec_method(self, db: &Database, name: Seq<char>) -> Option<MethodId> {
        trait_method(db, self, name, false, trait_search_fuel(db, self, name, false)).unwrap()
    }

    /// The method named `name` with a body that the trait or one of the traits
    /// it requires defines: see `trait_method`.
    pub open spec fn spec_default_method(self, db: &Database, name: Seq<char>) -> Option<MethodId> {
        trait_method(db, self, name, true, trait_search_fuel(db, self, name, true)).unwrap()
    }

    /// The method named `name` of the trait: the one that the trait defines or
    /// requires itself, or else the first that is found in the traits that it
    /// requires.
    pub fn method(self, db: &Database, name: &str) -> (r: Option<MethodId>)
        requires
            db.wf(),
            db.has_trait(self),
            trait_search_ends(db, self, name@, false),
        ensures
            r == self.spec_method(db, name@),
    {
        self.method_within(db, name, false, Ghost(trait_search_fuel(db, self, name@, false)))
    }

    /// The method named `name` with a body of the trait: the one that the
    /// trait defines itself, or else the first that is found in the traits
    /// that it requires.
    pub fn default_method(self, db: &Database, name: &str) -> (r: Option<MethodId>)
        requires
            db.wf(),
            db.has_trait(self),
            trait_search_ends(db, self, name@, true),
        ensures
            r == self.spec_default_method(db, name@),
    {
        self.method_within(db, name, true, Ghost(trait_search_fuel(db, self, name@, true)))
    }

    fn method_within(
        self,
        db: &Database,
        name: &str,
        defaults_only: bool,
        Ghost(fuel): Ghost<nat>,
    ) -> (r: Option<MethodId>)
        requires
            db.wf(),
            db.has_trait(self),
            trait_method(db, self, name@, defaults_only, fuel) is Some,
        ensures
            Some(r) == trait_method(db, self, name@, defaults_only, fuel),
        decreases fuel,
    {
        let typ = &db.traits[self.0 as usize];
        proof {
            assert(db.traits@[self.0 as int].wf(db.bounds()));
        }
        match typ.default_methods.get(name) {
            Some(id) => {
                proof {
                    let i = crate::collections::name_index::place_of_name(
                        typ.default_methods.entries(),
                        name@,
                    );
                    assert(typ.default_methods.entries()[i].1 < db.bounds().methods);
                }
                return Some(MethodId(id as u32));
            },
            None => {},
        }
        if !defaults_only {
            match typ.required_methods.get(name) {
                Some(id) => {
                    proof {
                        let i = crate::collections::name_index::place_of_name(
                            typ.required_methods.entries(),
                            name@,
                        );
                        assert(typ.required_methods.entries()[i].1 < db.bounds().methods);
                    }
                    return Some(MethodId(id as u32));
                },
                None => {},
            }
        }
        let mut i: usize = 0;
        while i < typ.required_traits.len()
            invariant
                db.wf(),
                db.has_trait(self),
                *typ == db.trait_(self),
                fuel > 0,
                own_method(db, self, name@, defaults_only) is None,
                i <= typ.required_traits@.len(),
                required_method(
                    db,
                    typ.required_traits@,
                    i as int,
                    name@,
                    defaults_only,
                    (fuel - 1) as nat,
                ) == trait_method(db, self, name@, defaults_only, fuel),
                trait_method(db, self, name@, defaults_only, fuel) is Some,
            decreases typ.required_traits@.len() - i,
        {
            let req = typ.required_traits[i];
            proof {
                assert(db.traits@[self.0 as int].wf(db.bounds()));
                assert(typ.required_traits@[i as int].instance_of.0 < db.bounds().traits);
            }
            if let Some(id) = req.instance_of.method_within(
                db,
                name,
                defaults_only,
                Ghost((fuel - 1) as nat),
            ) {
                return Some(id);
            }
            i += 1;
        }
        None
    }
}

impl ClassId {
    /// The method named `name` of the class: the method that the class defines
    /// itself, or else the one that it takes over from a trait which it
    /// implements.
    pub open spec fn spec_method(self, db: &Database, name: Seq<char>) -> Option<MethodId> {
        match db.class(self).methods.lookup(name) {
            Some(method) => Some(method),
            None => implemented_method(db, db.class(self).implemented_traits.values@, 0, name),
        }
    }

    /// The method named `name` of the class: see `spec_method`.
    pub fn resolve_method(self, db: &Database, name: &str) -> (r: Option<MethodId>)
        requires
            db.wf(),
            db.has_class(self),
            db.class(self).methods.lookup(name@) is None ==> self.search_ends(db, name@),
        ensures
            r == self.spec_method(db, name@),
    {
        match self.method(db, name) {
            Some(method) => Some(method),
            None => self.implemented_method(db, name),
        }
    }

    /// The search for a method named `name` with a body comes to an end in
    /// each trait that the class implements.
    pub open spec fn search_ends(self, db: &Database, name: Seq<char>) -> bool {
        forall|i: int|
            0 <= i < db.class(self).implemented_traits.values@.len() ==> trait_search_ends(
                db,
                (#[trigger] db.class(self).implemented_traits.values@[i]).instance.instance_of,
                name,
                true,
            )
    }

    /// The method named `name` that the class takes over from a trait which it
    /// implements: the first method with a body that is found in the
    /// implemented traits and the traits they require, going through the
    /// implemented traits in ascending order of their IDs.
    pub fn implemented_method(self, db: &Database, name: &str) -> (r: Option<MethodId>)
        requires
            db.wf(),
            db.has_class(self),
            self.search_ends(db, name@),
        ensures
            r == implemented_method(db, db.class(self).implemented_traits.values@, 0, name@),
    {
        let implemented = &db.classes[self.0 as usize].implemented_traits;
        let mut i: usize = 0;
        proof {
            assert(db.classes@[self.0 as int].wf(db.bounds()));
        }
        while i < implemented.values.len()
            invariant
                db.wf(),
                db.has_class(self),
                self.search_ends(db, name@),
                *implemented == db.class(self).implemented_traits,
                db.class(self).wf(db.bounds()),
                i <= implemented.values@.len(),
                implemented_method(db, implemented.values@, i as int, name@) == implemented_method(
                    db,
                    implemented.values@,
                    0,
                    name@,
                ),
            decreases implemented.values@.len() - i,
        {
            let id = implemented.values[i].instance.instance_of;
            proof {
                crate::collections::id_map::lemma_place_of(implemented.keys@, i as int);
                assert(implemented@.contains_key(implemented.keys@[i as int]));
                assert(implemented.values@[i as int].instance.instance_of.0 < db.bounds().traits);
            }
            if let Some(m) = id.default_method(db, name) {
                return Some(m);
            }
            i += 1;
        }
        None
    }
}

impl TraitInstance {
    /// The method named `name` of the trait of the instance.
    pub fn method(self, db: &Database, name: &str) -> (r: Option<MethodId>)
        requires
            db.wf(),
            db.has_trait(self.instance_of),
            trait_search_ends(db, self.instance_of, name@, false),
        ensures
            r == self.instance_of.spec_method(db, name@),
    {
        self.instance_of.method(db, name)
    }
}

impl TypeParameterId {
    /// The method named `name` of the type parameter: the first that is found
    /// in the traits that the parameter requires.
    pub open spec fn spec_method(self, db: &Database, name: Seq<char>) -> Option<MethodId> {
        first_method(db, db.type_parameter(self).requirements@, 0, name)
    }

    /// The search for a method named `name` comes to an end in each trait that
    /// the parameter requires.
    pub open spec fn search_ends(self, db: &Database, name: Seq<char>) -> bool {
        forall|i: int|
            0 <= i < db.type_parameter(self).requirements@.len() ==> trait_search_ends(
                db,
                (#[trigger] db.type_parameter(self).requirements@[i]).instance_of,
                name,
                false,
            )
    }

    /// The method named `name` of the type parameter: the first that is found
    /// in the traits that the parameter requires.
    pub fn method(self, db: &Database, name: &str) -> (r: Option<MethodId>)
        requires
            db.wf(),
            db.has_type_parameter(self),
            self.search_ends(db, name@),
        ensures
            r == self.spec_method(db, name@),
    {
        let typ = &db.type_parameters[self.0];
        let mut i: usize = 0;
        while i < typ.requirements.len()
            invariant
                db.wf(),
                db.has_type_parameter(self),
                self.search_ends(db, name@),
                *typ == db.type_parameter(self),
                i <= typ.requirements@.len(),
                first_method(db, typ.requirements@, i as int, name@) == self.spec_method(db, name@),
            decreases typ.requirements@.len() - i,
        {
            let req = typ.requirements[i];
            proof {
                assert(db.type_parameters@[self.0 as int].wf(db.bounds()));
                assert(typ.requirements@[i as int].instance_of.0 < db.bounds().traits);
            }
            if let Some(m) = req.method(db, name) {
                return Some(m);
            }
            i += 1;
        }
        None
    }
}

/// Whether a method can be called from `module`: a destructor never; a public
/// method always; a private method from a module in the same root namespace
/// as its own; a method private to its type only where that is allowed.
pub open spec fn callable(
    db: &Database,
    method: MethodId,
    module: ModuleId,
    allow_type_private: bool,
) -> bool {
    !(db.method(method).kind is Destructor) && match db.method(method).visibility {
        Visibility::Public => true,
        Visibility::Private => same_root_namespace(
            db.module_at(db.method(method).module).name@,
            db.module_at(module).name@,
        ),
        Visibility::TypePrivate => allow_type_private,
    }
}

/// The modules that deciding whether `method` can be called from `module`
/// looks at are in the database.
pub open spec fn call_modules_exist(db: &Database, method: MethodId, module: ModuleId) -> bool {
    !(db.method(method).kind is Destructor) && db.method(method).visibility is Private ==>
        db.has_module(
        db.method(method).module,
    ) && db.has_module(module)
}

impl TypeId {
    /// True if the type is a class, a trait or a module itself, and not an
    /// instance of one.
    pub open spec fn is_static(self) -> bool {
        self is Class || self is Trait || self is Module
    }

    /// The method named `name` of the type. For a class or an instance of
    /// one it is the method that the class defines, or else the first method
    /// with a body that is found in the traits which the class implements. For
    /// a module it is its static method. For a trait, an instance of one, or a
    /// type parameter it is the method that is found in the trait or in the
    /// required traits.
    pub open spec fn spec_method(self, db: &Database, name: Seq<char>) -> Option<MethodId> {
        match self {
            TypeId::Class(id) => id.spec_method(db, name),
            TypeId::Trait(id) => id.spec_method(db, name),
            TypeId::Module(id) => db.class(db.module_at(id).class).methods.lookup(name),
            TypeId::ClassInstance(ins) => ins.instance_of.spec_method(db, name),
            TypeId::TraitInstance(ins) => ins.instance_of.spec_method(db, name),
            TypeId::TypeParameter(id) | TypeId::RigidTypeParameter(id) => id.spec_method(db, name),
            _ => None,
        }
    }

    /// The search for a method named `name` on the type comes to an end.
    pub open spec fn search_ends(self, db: &Database, name: Seq<char>) -> bool {
        match self {
            TypeId::Class(id) => db.class(id).methods.lookup(name) is None ==> id.search_ends(
                db,
                name,
            ),
            TypeId::ClassInstance(ins) => db.class(ins.instance_of).methods.lookup(name) is None
                ==> ins.instance_of.search_ends(db, name),
            TypeId::Trait(id) => trait_search_ends(db, id, name, false),
            TypeId::TraitInstance(ins) => trait_search_ends(db, ins.instance_of, name, false),
            TypeId::TypeParameter(id) | TypeId::RigidTypeParameter(id) => id.search_ends(db, name),
            _ => true,
        }
    }

    /// The symbol that `name` stands for within the type: a symbol of a
    /// module, which is marked as used, or a type parameter of a class or
    /// trait.
    pub fn named_type(self, db: &mut Database, name: &str) -> (r: Option<Symbol>)
        requires
            old(db).wf(),
            self.valid(old(db).bounds()),
        ensures
            r == (match self {
                TypeId::Module(id) => old(db).symbol_of(id, name@),
                TypeId::Trait(id) => type_parameter_symbol(&old(db).trait_(id).type_parameters,
                    name@),
                TypeId::Class(id) => type_parameter_symbol(&old(db).class(id).type_parameters,
                    name@),
                TypeId::ClassInstance(ins) => type_parameter_symbol(
                    &old(db).class(ins.instance_of).type_parameters,
                    name@,
                ),
                TypeId::TraitInstance(ins) => type_parameter_symbol(
                    &old(db).trait_(ins.instance_of).type_parameters,
                    name@,
                ),
                _ => None,
            }),
            !(self is Module) ==> *final(db) == *old(db),
            self matches TypeId::Module(id) ==> {
                &&& final(db).module_changed(
                    old(db),
                    id,
                    Module { symbols: final(db).module_at(id).symbols, ..old(db).module_at(id) },
                )
                &&& final(db).module_at(id).symbols.order() == old(db).module_at(id).symbols.order()
                &&& final(db).module_at(id).symbols@ == (match r {
                    Some(symbol) => old(db).module_at(id).symbols@.insert(
                        name@,
                        ModuleSymbol { symbol, used: true },
                    ),
                    None => old(db).module_at(id).symbols@,
                })
            },
            final(db).wf(),
    {
        proof {
            match self {
                TypeId::Module(id) => assert(db.modules@[id.0 as int].wf(db.bounds())),
                TypeId::Trait(id) => assert(db.traits@[id.0 as int].wf(db.bounds())),
                TypeId::Class(id) => assert(db.classes@[id.0 as int].wf(db.bounds())),
                TypeId::ClassInstance(ins) => assert(db.classes@[ins.instance_of.0 as int].wf(
                    db.bounds(),
                )),
                TypeId::TraitInstance(ins) => assert(db.traits@[ins.instance_of.0 as int].wf(
                    db.bounds(),
                )),
                _ => {},
            }
        }
        match self {
            TypeId::Module(id) => id.use_symbol(db, name),
            TypeId::Trait(id) => id.named_type(db, name),
            TypeId::Class(id) => id.named_type(db, name),
            TypeId::ClassInstance(id) => id.named_type(db, name),
            TypeId::TraitInstance(id) => id.named_type(db, name),
            _ => None,
        }
    }

    /// What a lookup of the method named `name` on the type gives, for a
    /// caller in `module`: see `lookup_method`.
    pub open spec fn spec_lookup_method(
        self,
        db: &Database,
        name: Seq<char>,
        module: ModuleId,
        allow_type_private: bool,
    ) -> MethodLookup {
        match self.spec_method(db, name) {
            Some(id) => {
                let is_static = db.method(id).kind is Static || db.method(id).kind is Constructor;
                if !self.is_static() && is_static {
                    MethodLookup::StaticOnInstance
                } else if self.is_static() && !is_static {
                    MethodLookup::InstanceOnStatic
                } else if callable(db, id, module, allow_type_private) {
                    MethodLookup::Found(id)
                } else {
                    MethodLookup::Private
                }
            },
            None => match self {
                TypeId::Module(id) => match db.module_at(id).extern_methods.lookup(name) {
                    Some(method) => MethodLookup::Found(method),
                    None => MethodLookup::Missing,
                },
                _ => MethodLookup::Missing,
            },
        }
    }

    /// Looks up the method named `name` on the type, for a caller in `module`.
    ///
    /// A method of the type itself comes before the methods of the traits that
    /// the type implements or requires, and those before the methods of the
    /// traits which these traits require. What is found is reported as found
    /// only if it can be called: a static method not on an instance, a method
    /// of instances not on a class, trait or module, and neither unless the
    /// rules of visibility allow it. On a module an external method of that
    /// name is found where no other method is.
    pub fn lookup_method(
        self,
        db: &Database,
        name: &str,
        module: ModuleId,
        allow_type_private: bool,
    ) -> (r: MethodLookup)
        requires
            db.wf(),
            self.valid(db.bounds()),
            self.search_ends(db, name@),
            self.spec_method(db, name@) matches Some(id) ==> call_modules_exist(db, id, module),
        ensures
            r == self.spec_lookup_method(db, name@, module, allow_type_private),
    {
        if let Some(id) = self.method(db, name) {
            let kind = id.kind(db);
            let is_ins = !matches!(self, TypeId::Class(_) | TypeId::Trait(_) | TypeId::Module(_));

            if is_ins && kind.is_static() {
                MethodLookup::StaticOnInstance
            } else if !is_ins && !kind.is_static() {
                MethodLookup::InstanceOnStatic
            } else if self.can_call(db, id, module, allow_type_private) {
                MethodLookup::Found(id)
            } else {
                MethodLookup::Private
            }
        } else if let TypeId::Module(id) = self {
            match id.extern_method(db, name) {
                Some(method) => MethodLookup::Found(method),
                None => MethodLookup::Missing,
            }
        } else {
            MethodLookup::Missing
        }
    }

    /// The method named `name` of the type: see `spec_method`.
    pub fn method(self, db: &Database, name: &str) -> (r: Option<MethodId>)
        requires
            db.wf(),
            self.valid(db.bounds()),
            self.search_ends(db, name@),
        ensures
            r == self.spec_method(db, name@),
            r matches Some(id) ==> db.has_method(id),
    {
        let r = match self {
            TypeId::Class(id) => id.resolve_method(db, name),
            TypeId::Trait(id) => id.method(db, name),
            TypeId::Module(id) => {
                proof {
                    assert(db.modules@[id.0 as int].wf(db.bounds()));
                }
                id.method(db, name)
            },
            TypeId::ClassInstance(id) => id.instance_of().resolve_method(db, name),
            TypeId::TraitInstance(id) => id.method(db, name),
            TypeId::TypeParameter(id) | TypeId::RigidTypeParameter(id) => id.method(db, name),
            _ => None,
        };
        proof {
            if let Some(id) = r {
                lemma_method_exists(db, self, name@);
            }
        }
        r
    }

    /// True if instances of the type have a destructor of their own.
    pub fn has_destructor(self, db: &Database) -> (r: bool)
        requires
            self.valid(db.bounds()),
        ensures
            r == (self matches TypeId::ClassInstance(ins) && db.class(ins.instance_of).destructor),
    {
        if let TypeId::ClassInstance(id) = self {
            id.instance_of().has_destructor(db)
        } else {
            false
        }
    }

    /// Whether `method` can be called on the type from `module`: see
    /// `callable`.
    pub fn can_call(
        self,
        db: &Database,
        method: MethodId,
        module: ModuleId,
        allow_type_private: bool,
    ) -> (r: bool)
        requires
            db.has_method(method),
            call_modules_exist(db, method, module),
        ensures
            r == callable(db, method, module, allow_type_private),
    {
        let m = &db.methods[method.0 as usize];

        if m.kind == crate::kinds::MethodKind::Destructor {
            return false;
        }
        match m.visibility {
            Visibility::Public => true,
            Visibility::Private => m.module.has_same_root_namespace(db, module),
            Visibility::TypePrivate => allow_type_private,
        }
    }
}

/// A method that a trait defines or requires itself is in the database.
proof fn lemma_own_method_exists(db: &Database, id: TraitId, name: Seq<char>, defaults_only: bool)
    requires
        db.wf(),
        db.has_trait(id),
    ensures
        own_method(db, id, name, defaults_only) matches Some(m) ==> db.has_method(m),
{
    let t = db.traits@[id.0 as int];
    assert(t.wf(db.bounds()));
    if t.default_methods.lookup(name) is Some {
        let i = crate::collections::name_index::place_of_name(t.default_methods.entries(), name);
        assert(t.default_methods.entries()[i].1 < db.bounds().methods);
    } else if t.required_methods.lookup(name) is Some {
        let i = crate::collections::name_index::place_of_name(t.required_methods.entries(), name);
        assert(t.required_methods.entries()[i].1 < db.bounds().methods);
    }
}

/// A method that is found in a trait or in the traits it requires is in the
/// database.
proof fn lemma_trait_method_exists(
    db: &Database,
    id: TraitId,
    name: Seq<char>,
    defaults_only: bool,
    fuel: nat,
)
    requires
        db.wf(),
        db.has_trait(id),
    ensures
        trait_method(db, id, name, defaults_only, fuel) matches Some(Some(m)) ==> db.has_method(m),
    decreases fuel, 0nat,
{
    lemma_own_method_exists(db, id, name, defaults_only);
    if own_method(db, id, name, defaults_only) is None && fuel > 0 {
        assert(db.traits@[id.0 as int].wf(db.bounds()));
        lemma_required_method_exists(
            db,
            db.trait_(id).required_traits@,
            0,
            name,
            defaults_only,
            (fuel - 1) as nat,
        );
    }
}

proof fn lemma_required_method_exists(
    db: &Database,
    required: Seq<TraitInstance>,
    from: int,
    name: Seq<char>,
    defaults_only: bool,
    fuel: nat,
)
    requires
        db.wf(),
        forall|i: int| 0 <= i < required.len() ==>
            db.has_trait((#[trigger] required[i]).instance_of),
    ensures
        required_method(db, required, from, name, defaults_only, fuel) matches Some(Some(m))
            ==> db.has_method(m),
    decreases fuel, 1 + required.len() - from,
{
    if 0 <= from < required.len() {
        lemma_trait_method_exists(db, required[from].instance_of, name, defaults_only, fuel);
        lemma_required_method_exists(db, required, from + 1, name, defaults_only, fuel);
    }
}

proof fn lemma_first_method_exists(
    db: &Database,
    requirements: Seq<TraitInstance>,
    from: int,
    name: Seq<char>,
)
    requires
        db.wf(),
        forall|i: int|
            0 <= i < requirements.len() ==> db.has_trait((#[trigger] requirements[i]).instance_of),
        forall|i: int|
            0 <= i < requirements.len() ==> trait_search_ends(
                db,
                (#[trigger] requirements[i]).instance_of,
                name,
                false,
            ),
    ensures
        first_method(db, requirements, from, name) matches Some(m) ==> db.has_method(m),
    decreases requirements.len() - from,
{
    if 0 <= from < requirements.len() {
        let id = requirements[from].instance_of;
        lemma_trait_method_exists(db, id, name, false, trait_search_fuel(db, id, name, false));
        lemma_first_method_exists(db, requirements, from + 1, name);
    }
}

proof fn lemma_implemented_method_exists(
    db: &Database,
    implemented: Seq<TraitImplementation>,
    from: int,
    name: Seq<char>,
)
    requires
        db.wf(),
        forall|i: int|
            0 <= i < implemented.len() ==> db.has_trait(
                (#[trigger] implemented[i]).instance.instance_of,
            ),
        forall|i: int|
            0 <= i < implemented.len() ==> trait_search_ends(
                db,
                (#[trigger] implemented[i]).instance.instance_of,
                name,
                true,
            ),
    ensures
        implemented_method(db, implemented, from, name) matches Some(m) ==> db.has_method(m),
    decreases implemented.len() - from,
{
    if 0 <= from < implemented.len() {
        let id = implemented[from].instance.instance_of;
        lemma_trait_method_exists(db, id, name, true, trait_search_fuel(db, id, name, true));
        lemma_implemented_method_exists(db, implemented, from + 1, name);
    }
}

/// A method that is found on a class is in the database.
proof fn lemma_class_method_exists(db: &Database, id: ClassId, name: Seq<char>)
    requires
        db.wf(),
        db.has_class(id),
        db.class(id).methods.lookup(name) is None ==> id.search_ends(db, name),
    ensures
        id.spec_method(db, name) matches Some(m) ==> db.has_method(m),
{
    let c = db.classes@[id.0 as int];
    assert(c.wf(db.bounds()));
    if c.methods.lookup(name) is None {
        assert forall|i: int| 0 <= i < c.implemented_traits.values@.len() implies db.has_trait(
            (#[trigger] c.implemented_traits.values@[i]).instance.instance_of,
        ) by {
            crate::collections::id_map::lemma_place_of(c.implemented_traits.keys@, i);
            assert(c.implemented_traits@.contains_key(c.implemented_traits.keys@[i]));
        }
        lemma_implemented_method_exists(db, c.implemented_traits.values@, 0, name);
    }
}

/// A method that is found on a type is in the database.
pub proof fn lemma_method_exists(db: &Database, id: TypeId, name: Seq<char>)
    requires
        db.wf(),
        id.valid(db.bounds()),
        id.search_ends(db, name),
    ensures
        id.spec_method(db, name) matches Some(m) ==> db.has_method(m),
{
    match id {
        TypeId::Class(c) => {
            lemma_class_method_exists(db, c, name);
        },
        TypeId::ClassInstance(ins) => {
            lemma_class_method_exists(db, ins.instance_of, name);
        },
        TypeId::Module(m) => {
            assert(db.modules@[m.0 as int].wf(db.bounds()));
            assert(db.classes@[db.module_at(m).class.0 as int].wf(db.bounds()));
        },
        TypeId::Trait(t) => {
            lemma_trait_method_exists(db, t, name, false, trait_search_fuel(db, t, name, false));
        },
        TypeId::TraitInstance(ins) => {
            lemma_trait_method_exists(
                db,
                ins.instance_of,
                name,
                false,
                trait_search_fuel(db, ins.instance_of, name, false),
            );
        },
        TypeId::TypeParameter(p) | TypeId::RigidTypeParameter(p) => {
            assert(db.type_parameters@[p.0 as int].wf(db.bounds()));
            lemma_first_method_exists(db, db.type_parameter(p).requirements@, 0, name);
        },
        _ => {},
    }
}

} // verus!
