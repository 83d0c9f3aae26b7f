//! Making a database, and finding modules, classes, traits and intrinsics in
//! it by their names.
use vstd::prelude::*;
use crate::collections::name_map::NameMap;
use crate::database::{Class, Database, Table};
use crate::intrinsic::Intrinsic;
use crate::kinds::{ClassKind, Storage, Symbol, Visibility};
use crate::location::Location;
use crate::module_name::ModuleName;
use crate::type_ref::{ClassId, MethodId, ModuleId, TraitId};
use crate::{
    ARRAY_NAME, BOOL_NAME, BYTE_ARRAY_NAME, CHECKED_INT_RESULT_NAME, DEFAULT_BUILTIN_MODULE_ID,
    DROP_MODULE, DROP_TRAIT, FIRST_USER_CLASS_ID, FLOAT_NAME, INT_NAME, NIL_NAME, STRING_NAME,
    TUPLE1_NAME, TUPLE2_NAME, TUPLE3_NAME, TUPLE4_NAME, TUPLE5_NAME, TUPLE6_NAME, TUPLE7_NAME,
    TUPLE8_NAME,
};

verus! {

/// The name of the built-in class with the given ID.
pub open spec fn builtin_name(id: int) -> Seq<char> {
    if id == 0 {
        STRING_NAME@
    } else if id == 1 {
        BYTE_ARRAY_NAME@
    } else if id == 2 {
        INT_NAME@
    } else if id == 3 {
        FLOAT_NAME@
    } else if id == 4 {
        BOOL_NAME@
    } else if id == 5 {
        NIL_NAME@
    } else if id == 6 {
        TUPLE1_NAME@
    } else if id == 7 {
        TUPLE2_NAME@
    } else if id == 8 {
        TUPLE3_NAME@
    } else if id == 9 {
        TUPLE4_NAME@
    } else if id == 10 {
        TUPLE5_NAME@
    } else if id == 11 {
        TUPLE6_NAME@
    } else if id == 12 {
        TUPLE7_NAME@
    } else if id == 13 {
        TUPLE8_NAME@
    } else if id == 14 {
        ARRAY_NAME@
    } else {
        CHECKED_INT_RESULT_NAME@
    }
}

/// The kind of the built-in class with the given ID: strings are atomic, the
/// tuples are tuples, the result of a checked integer operation is a C
/// structure, and the others are regular classes.
pub open spec fn builtin_kind(id: int) -> ClassKind {
    if id == 0 {
        ClassKind::Atomic
    } else if 6 <= id <= 13 {
        ClassKind::Tuple
    } else if id == 15 {
        ClassKind::Extern
    } else {
        ClassKind::Regular
    }
}

/// Where instances of the built-in class with the given ID live: integers,
/// floats, booleans, nil and the results of checked integer operations on the
/// stack, the others on the heap.
pub open spec fn builtin_storage(id: int) -> Storage {
    if 2 <= id <= 5 || id == 15 {
        Storage::Stack
    } else {
        Storage::Heap
    }
}

/// What tells the names of the built-in classes apart: the length of the name
/// with its first and its last character.
spec fn name_mark(name: Seq<char>) -> (nat, char, char) {
    (name.len(), name[0], name[name.len() - 1])
}

/// No two built-in classes have the same name, so a name stands for one
/// built-in class at most.
pub proof fn lemma_builtin_names_differ(a: int, b: int)
    requires
        0 <= a < b < FIRST_USER_CLASS_ID,
    ensures
        builtin_name(a) != builtin_name(b),
{
    reveal_strlit("String");
    reveal_strlit("ByteArray");
    reveal_strlit("Int");
    reveal_strlit("Float");
    reveal_strlit("Bool");
    reveal_strlit("Nil");
    reveal_strlit("Tuple1");
    reveal_strlit("Tuple2");
    reveal_strlit("Tuple3");
    reveal_strlit("Tuple4");
    reveal_strlit("Tuple5");
    reveal_strlit("Tuple6");
    reveal_strlit("Tuple7");
    reveal_strlit("Tuple8");
    reveal_strlit("Array");
    reveal_strlit("CheckedIntResult");
    assert(name_mark(builtin_name(a)) != name_mark(builtin_name(b)));
}

impl Database {
    /// The built-in class with the given ID is as the compiler defines it.
    pub open spec fn holds_builtin(&self, id: int) -> bool {
        self.classes@[id].fresh(
            self.classes@[id].name,
            builtin_kind(id),
            if id == 15 {
                Visibility::Private
            } else {
                Visibility::Public
            },
            ModuleId(DEFAULT_BUILTIN_MODULE_ID),
            Location::spec_default(),
            builtin_storage(id),
        ) && self.classes@[id].name@ == builtin_name(id)
    }

    /// A database that holds the built-in classes and the intrinsics, and
    /// nothing else.
    pub fn new() -> (r: Self)
        ensures
            r.wf(),
            r.classes@.len() == FIRST_USER_CLASS_ID,
            forall|id: int| 0 <= id < FIRST_USER_CLASS_ID ==> r.holds_builtin(id),
            forall|i: Intrinsic|
                r.intrinsics@.contains_key(i.spec_name()) && r.intrinsics@[i.spec_name()] == i,
            forall|name: Seq<char>| #[trigger]
                r.intrinsics@.contains_key(name) ==> exists|i: Intrinsic| i.spec_name() == name,
            r.modules@.len() == 0,
            r.module_mapping@ == Map::<Seq<char>, ModuleId>::empty(),
            r.traits@.len() == 0,
            r.type_parameters@.len() == 0,
            r.type_arguments@.len() == 0,
            r.methods@.len() == 0,
            r.fields@.len() == 0,
            r.closures@.len() == 0,
            r.variables@.len() == 0,
            r.constants@.len() == 0,
            r.type_placeholders@.len() == 0,
            r.constructors@.len() == 0,
            r.main_module is None,
            r.main_method is None,
            r.main_class is None,
    {
        let mut classes: Vec<Class> = Vec::new();
        classes.push(Class::atomic(STRING_NAME.to_owned()));
        classes.push(Class::regular(BYTE_ARRAY_NAME.to_owned()));
        classes.push(Class::value_type(INT_NAME.to_owned()));
        classes.push(Class::value_type(FLOAT_NAME.to_owned()));
        classes.push(Class::value_type(BOOL_NAME.to_owned()));
        classes.push(Class::value_type(NIL_NAME.to_owned()));
        classes.push(Class::tuple(TUPLE1_NAME.to_owned()));
        classes.push(Class::tuple(TUPLE2_NAME.to_owned()));
        classes.push(Class::tuple(TUPLE3_NAME.to_owned()));
        classes.push(Class::tuple(TUPLE4_NAME.to_owned()));
        classes.push(Class::tuple(TUPLE5_NAME.to_owned()));
        classes.push(Class::tuple(TUPLE6_NAME.to_owned()));
        classes.push(Class::tuple(TUPLE7_NAME.to_owned()));
        classes.push(Class::tuple(TUPLE8_NAME.to_owned()));
        classes.push(Class::regular(ARRAY_NAME.to_owned()));
        classes.push(
            Class::new(
                CHECKED_INT_RESULT_NAME.to_owned(),
                ClassKind::Extern,
                Visibility::Private,
                ModuleId(DEFAULT_BUILTIN_MODULE_ID),
                Location::default(),
            ),
        );
        let db = Database {
            modules: Vec::new(),
            module_mapping: NameMap::new(),
            traits: Vec::new(),
            classes,
            type_parameters: Vec::new(),
            type_arguments: Vec::new(),
            fields: Vec::new(),
            methods: Vec::new(),
            closures: Vec::new(),
            variables: Vec::new(),
            constants: Vec::new(),
            intrinsics: Intrinsic::mapping(),
            type_placeholders: Vec::new(),
            constructors: Vec::new(),
            main_module: None,
            main_method: None,
            main_class: None,
        };
        proof {
            assert forall|id: int| 0 <= id < FIRST_USER_CLASS_ID implies db.holds_builtin(id) by {
                let c = db.classes@[id];
                assert(c.wf(db.bounds()));
            }
            assert forall|i: int| 0 <= i < db.classes@.len() implies (#[trigger] db.classes@[i]).wf(
                db.bounds(),
            ) by {}
        }
        db
    }

    /// Empties the table of type arguments. After specialization the type
    /// arguments are no longer in use: removing them frees the memory, and the
    /// indexes that instances hold have no meaning from then on.
    pub fn compact(&mut self)
        ensures
            final(self).type_arguments@.len() == 0,
            final(self).same_but(old(self), set![Table::TypeArguments]),
            old(self).wf() ==> final(self).wf(),
    {
        self.type_arguments = Vec::new();
    }

    /// The built-in class named `name`.
    pub fn builtin_class(&self, name: &str) -> (r: Option<ClassId>)
        ensures
            match r {
                Some(id) => id.0 < FIRST_USER_CLASS_ID && builtin_name(id.0 as int) == name@,
                None => forall|id: int| 0 <= id < FIRST_USER_CLASS_ID ==> builtin_name(id) != name@,
            },
            forall|id: int|
                0 <= id < FIRST_USER_CLASS_ID && builtin_name(id) == name@ ==> r == Some(
                    ClassId(id as u32),
                ),
    {
        let found = if *name == *INT_NAME {
            Some(ClassId::integer())
        } else if *name == *FLOAT_NAME {
            Some(ClassId::float())
        } else if *name == *STRING_NAME {
            Some(ClassId::string())
        } else if *name == *ARRAY_NAME {
            Some(ClassId::array())
        } else if *name == *BOOL_NAME {
            Some(ClassId::boolean())
        } else if *name == *NIL_NAME {
            Some(ClassId::nil())
        } else if *name == *BYTE_ARRAY_NAME {
            Some(ClassId::byte_array())
        } else if *name == *TUPLE1_NAME {
            Some(ClassId::tuple1())
        } else if *name == *TUPLE2_NAME {
            Some(ClassId::tuple2())
        } else if *name == *TUPLE3_NAME {
            Some(ClassId::tuple3())
        } else if *name == *TUPLE4_NAME {
            Some(ClassId::tuple4())
        } else if *name == *TUPLE5_NAME {
            Some(ClassId::tuple5())
        } else if *name == *TUPLE6_NAME {
            Some(ClassId::tuple6())
        } else if *name == *TUPLE7_NAME {
            Some(ClassId::tuple7())
        } else if *name == *TUPLE8_NAME {
            Some(ClassId::tuple8())
        } else if *name == *CHECKED_INT_RESULT_NAME {
            Some(ClassId::checked_int_result())
        } else {
            None
        };
        proof {
            assert forall|id: int|
                0 <= id < FIRST_USER_CLASS_ID && builtin_name(id) == name@ implies found == Some(
                ClassId(id as u32),
            ) by {
                if let Some(class) = found {
                    if id < class.0 {
                        lemma_builtin_names_differ(id, class.0 as int);
                    } else if class.0 < id {
                        lemma_builtin_names_differ(class.0 as int, id);
                    }
                }
            }
        }
        found
    }

    /// The intrinsic named `name`.
    pub fn intrinsic(&self, name: &str) -> (r: Option<Intrinsic>)
        ensures
            r == self.intrinsics.lookup(name@),
    {
        self.intrinsics.get(name)
    }

    /// The module named `name`, which must be in the database.
    pub fn module(&self, name: &str) -> (r: ModuleId)
        requires
            self.module_mapping@.contains_key(name@),
        ensures
            r == self.module_mapping@[name@],
            self.wf() ==> self.has_module(r),
    {
        match self.optional_module(name) {
            Some(id) => id,
            None => unreached(),
        }
    }

    /// The module named `name`, if it is in the database.
    pub fn optional_module(&self, name: &str) -> (r: Option<ModuleId>)
        ensures
            r == self.module_mapping.lookup(name@),
            self.wf() && r is Some ==> self.has_module(r.unwrap()),
    {
        self.module_mapping.get(name)
    }

    /// The class that the symbol `name` of the module named `module` stands
    /// for. The module must be in the database, and the symbol must be a class.
    pub fn class_in_module(&self, module: &str, name: &str) -> (r: ClassId)
        requires
            self.module_mapping@.contains_key(module@),
            self.has_module(self.module_mapping@[module@]),
            self.symbol_of(self.module_mapping@[module@], name@) matches Some(Symbol::Class(_)),
        ensures
            self.symbol_of(self.module_mapping@[module@], name@) == Some(Symbol::Class(r)),
            self.wf() ==> self.has_class(r),
    {
        match self.module(module).symbol(self, name) {
            Some(Symbol::Class(id)) => id,
            _ => unreached(),
        }
    }

    /// The trait that the symbol `name` of the module named `module` stands
    /// for. The module must be in the database, and the symbol must be a trait.
    pub fn trait_in_module(&self, module: &str, name: &str) -> (r: TraitId)
        requires
            self.module_mapping@.contains_key(module@),
            self.has_module(self.module_mapping@[module@]),
            self.symbol_of(self.module_mapping@[module@], name@) matches Some(Symbol::Trait(_)),
        ensures
            self.symbol_of(self.module_mapping@[module@], name@) == Some(Symbol::Trait(r)),
            self.wf() ==> self.has_trait(r),
    {
        match self.module(module).symbol(self, name) {
            Some(Symbol::Trait(id)) => id,
            _ => unreached(),
        }
    }

    /// The trait `Drop` of the module `std.drop`, which must be in the
    /// database.
    pub fn drop_trait(&self) -> (r: TraitId)
        requires
            self.module_mapping@.contains_key(DROP_MODULE@),
            self.has_module(self.module_mapping@[DROP_MODULE@]),
            self.symbol_of(self.module_mapping@[DROP_MODULE@], DROP_TRAIT@) matches Some(
                Symbol::Trait(_),
            ),
        ensures
            self.symbol_of(self.module_mapping@[DROP_MODULE@], DROP_TRAIT@) == Some(
                Symbol::Trait(r),
            ),
    {
        self.trait_in_module(DROP_MODULE, DROP_TRAIT)
    }

    pub fn number_of_traits(&self) -> (r: usize)
        ensures
            r == self.traits@.len(),
    {
        self.traits.len()
    }

    pub fn number_of_modules(&self) -> (r: usize)
        ensures
            r == self.modules@.len(),
    {
        self.modules.len()
    }

    pub fn number_of_classes(&self) -> (r: usize)
        ensures
            r == self.classes@.len(),
    {
        self.classes.len()
    }

    pub fn number_of_methods(&self) -> (r: usize)
        ensures
            r == self.methods@.len(),
    {
        self.methods.len()
    }

    pub fn set_main_module(&mut self, name: ModuleName)
        ensures
            final(self).main_module == Some(name),
            final(self).same_but(old(self), set![Table::MainModule]),
            old(self).wf() ==> final(self).wf(),
    {
        self.main_module = Some(name);
    }

    pub fn main_module(&self) -> (r: Option<&ModuleName>)
        ensures
            match r {
                Some(name) => self.main_module == Some(*name),
                None => self.main_module is None,
            },
    {
        self.main_module.as_ref()
    }

    pub fn set_main_method(&mut self, id: MethodId)
        ensures
            final(self).main_method == Some(id),
            final(self).same_but(old(self), set![Table::MainMethod]),
            old(self).wf() ==> final(self).wf(),
    {
        self.main_method = Some(id);
    }

    pub fn main_method(&self) -> (r: Option<MethodId>)
        ensures
            r == self.main_method,
    {
        self.main_method
    }

    pub fn set_main_class(&mut self, id: ClassId)
        ensures
            final(self).main_class == Some(id),
            final(self).same_but(old(self), set![Table::MainClass]),
            old(self).wf() ==> final(self).wf(),
    {
        self.main_class = Some(id);
    }

    pub fn main_class(&self) -> (r: Option<ClassId>)
        ensures
            r == self.main_class,
    {
        self.main_class
    }
}

} // verus!
