//! What `throw` and `try` act upon: the classes `Option` and `Result` of the
//! standard library.
use vstd::prelude::*;
use crate::arguments::TypeArguments;
use crate::collections::copies::parameters_of;
use crate::database::{Database, Table};
use crate::kinds::{Symbol, ThrowKind};
use crate::type_ref::{ClassId, ClassInstance, TypeId, TypeParameterId, TypeRef};
use crate::{OPTION_CLASS, OPTION_MODULE, RESULT_CLASS, RESULT_MODULE};

verus! {

impl Database {
    /// The class that the symbol `name` of the module named `module` stands
    /// for, if there are such a module and such a symbol.
    pub open spec fn class_named(&self, module: Seq<char>, name: Seq<char>) -> Option<ClassId> {
        if self.module_mapping@.contains_key(module) && self.has_module(
            self.module_mapping@[module],
        ) {
            match self.symbol_of(self.module_mapping@[module], name) {
                Some(Symbol::Class(id)) => Some(id),
                _ => None,
            }
        } else {
            None
        }
    }

    /// The class `Option` of the standard library.
    pub open spec fn option_class(&self) -> Option<ClassId> {
        self.class_named(OPTION_MODULE@, OPTION_CLASS@)
    }

    /// The class `Result` of the standard library.
    pub open spec fn result_class(&self) -> Option<ClassId> {
        self.class_named(RESULT_MODULE@, RESULT_CLASS@)
    }

    /// The type parameter of `class` at place `index`.
    pub open spec fn class_parameter(&self, class: ClassId, index: int) -> TypeParameterId {
        parameters_of(&self.class(class).type_parameters)[index]
    }
}

impl ClassInstance {
    /// What `throw` and `try` act upon for a value of this instance: the
    /// types assigned to the two type parameters of `Result`, the type
    /// assigned to the type parameter of `Option`, or nothing that is known.
    pub open spec fn throw_kind(self, db: &Database) -> ThrowKind {
        if Some(self.instance_of) == db.result_class() {
            ThrowKind::Result(
                self.arguments(db)@[db.class_parameter(self.instance_of, 0).0],
                self.arguments(db)@[db.class_parameter(self.instance_of, 1).0],
            )
        } else if Some(self.instance_of) == db.option_class() {
            ThrowKind::Option(self.arguments(db)@[db.class_parameter(self.instance_of, 0).0])
        } else {
            ThrowKind::Unknown
        }
    }

    /// The instance has what `throw_kind` reads: the classes `Option` and
    /// `Result` are known, and an instance of one of them has type arguments
    /// that assign a type to each type parameter of its class.
    pub open spec fn throw_kind_known(self, db: &Database) -> bool {
        &&& db.option_class() is Some
        &&& db.result_class() is Some
        &&& Some(self.instance_of) == db.result_class() ==> {
            &&& db.class(self.instance_of).type_parameters.entries().len() >= 2
            &&& self.type_arguments < db.type_arguments@.len()
            &&& self.arguments(db)@.contains_key(db.class_parameter(self.instance_of, 0).0)
            &&& self.arguments(db)@.contains_key(db.class_parameter(self.instance_of, 1).0)
        }
        &&& Some(self.instance_of) != db.result_class() && Some(self.instance_of)
            == db.option_class() ==> {
            &&& db.class(self.instance_of).type_parameters.entries().len() >= 1
            &&& self.type_arguments < db.type_arguments@.len()
            &&& self.arguments(db)@.contains_key(db.class_parameter(self.instance_of, 0).0)
        }
    }
}

impl TypeRef {
    /// What `throw` and `try` act upon for a value of this type: for an
    /// instance held under a stated ownership see `ClassInstance::throw_kind`;
    /// for a placeholder without a value the placeholder, to be inferred;
    /// nothing that is known for the rest.
    pub open spec fn spec_throw_kind(self, db: &Database) -> ThrowKind {
        match self.resolved(db) {
            TypeRef::Placeholder(p) => ThrowKind::Infer(p),
            resolved => match resolved.instance() {
                Some(ins) => ins.throw_kind(db),
                None => ThrowKind::Unknown,
            },
        }
    }

    /// What `throw` and `try` act upon for a value of this type: see
    /// `spec_throw_kind`.
    pub fn throw_kind(self, db: &Database) -> (r: ThrowKind)
        requires
            db.wf(),
            self.valid(db.bounds()),
            self.resolved(db).instance() matches Some(ins) ==> ins.throw_kind_known(db),
        ensures
            r == self.spec_throw_kind(db),
    {
        match self.resolve(db) {
            TypeRef::Owned(TypeId::ClassInstance(ins))
            | TypeRef::Uni(TypeId::ClassInstance(ins))
            | TypeRef::Ref(TypeId::ClassInstance(ins))
            | TypeRef::Mut(TypeId::ClassInstance(ins))
            | TypeRef::UniMut(TypeId::ClassInstance(ins))
            | TypeRef::UniRef(TypeId::ClassInstance(ins)) => {
                let opt_class = db.class_in_module(OPTION_MODULE, OPTION_CLASS);
                let res_class = db.class_in_module(RESULT_MODULE, RESULT_CLASS);
                let params = ins.instance_of.type_parameters(db);

                if ins.instance_of == res_class {
                    let args = &db.type_arguments[ins.type_arguments as usize];
                    proof {
                        assert(args.wf());
                    }
                    let ok = match args.get(params[0]) {
                        Some(typ) => typ,
                        None => unreached(),
                    };
                    let err = match args.get(params[1]) {
                        Some(typ) => typ,
                        None => unreached(),
                    };

                    ThrowKind::Result(ok, err)
                } else if ins.instance_of == opt_class {
                    let args = &db.type_arguments[ins.type_arguments as usize];
                    proof {
                        assert(args.wf());
                    }
                    let some = match args.get(params[0]) {
                        Some(typ) => typ,
                        None => unreached(),
                    };

                    ThrowKind::Option(some)
                } else {
                    ThrowKind::Unknown
                }
            },
            TypeRef::Placeholder(p) => ThrowKind::Infer(p),
            _ => ThrowKind::Unknown,
        }
    }

    /// An owned `Result` of the standard library with the given types
    /// assigned to its two type parameters. The class must be known and have
    /// two type parameters.
    pub fn result_type(db: &mut Database, ok: TypeRef, error: TypeRef) -> (r: TypeRef)
        requires
            old(db).result_class() matches Some(class) && old(db).has_class(class) && old(db).class(
                class,
            ).type_parameters.entries().len() >= 2,
            old(db).type_arguments@.len() < u32::MAX,
        ensures
            r == TypeRef::Owned(
                TypeId::ClassInstance(
                    ClassInstance {
                        instance_of: old(db).result_class().unwrap(),
                        type_arguments: old(db).type_arguments@.len() as u32,
                    },
                ),
            ),
            final(db).type_arguments@ == old(db).type_arguments@.push(
                final(db).type_arguments@.last(),
            ),
            final(db).type_arguments@.last().wf(),
            final(db).type_arguments@.last()@ == Map::<usize, TypeRef>::empty().insert(
                old(db).class_parameter(old(db).result_class().unwrap(), 0).0,
                ok,
            ).insert(old(db).class_parameter(old(db).result_class().unwrap(), 1).0, error),
            final(db).same_but(old(db), set![Table::TypeArguments]),
            old(db).wf() && ok.valid(old(db).bounds()) && error.valid(old(db).bounds())
                ==> final(db).wf(),
    {
        let class = db.class_in_module(RESULT_MODULE, RESULT_CLASS);
        let params = class.type_parameters(db);
        let mut args = TypeArguments::new();

        args.assign(params[0], ok);
        args.assign(params[1], error);
        TypeRef::Owned(TypeId::ClassInstance(ClassInstance::generic(db, class, args)))
    }

    /// An owned `Option` of the standard library with the given type assigned
    /// to its type parameter. The class must be known and have a type
    /// parameter.
    pub fn option_type(db: &mut Database, some: TypeRef) -> (r: TypeRef)
        requires
            old(db).option_class() matches Some(class) && old(db).has_class(class) && old(db).class(
                class,
            ).type_parameters.entries().len() >= 1,
            old(db).type_arguments@.len() < u32::MAX,
        ensures
            r == TypeRef::Owned(
                TypeId::ClassInstance(
                    ClassInstance {
                        instance_of: old(db).option_class().unwrap(),
                        type_arguments: old(db).type_arguments@.len() as u32,
                    },
                ),
            ),
            final(db).type_arguments@ == old(db).type_arguments@.push(
                final(db).type_arguments@.last(),
            ),
            final(db).type_arguments@.last().wf(),
            final(db).type_arguments@.last()@ == Map::<usize, TypeRef>::empty().insert(
                old(db).class_parameter(old(db).option_class().unwrap(), 0).0,
                some,
            ),
            final(db).same_but(old(db), set![Table::TypeArguments]),
            old(db).wf() && some.valid(old(db).bounds()) ==> final(db).wf(),
    {
        let class = db.class_in_module(OPTION_MODULE, OPTION_CLASS);
        let params = class.type_parameters(db);
        let mut args = TypeArguments::new();

        args.assign(params[0], some);
        TypeRef::Owned(TypeId::ClassInstance(ClassInstance::generic(db, class, args)))
    }
}

impl ThrowKind {
    /// The kind with the error of a `Result` turned into a unique value if it
    /// is an owned one.
    pub fn as_uni(self, db: &Database) -> (r: ThrowKind)
        requires
            db.wf(),
            self matches ThrowKind::Result(_, err) ==> err.valid(db.bounds()),
        ensures
            r == (match self {
                ThrowKind::Result(ok, err) => if err.resolved(db) is Owned {
                    ThrowKind::Result(ok, err.spec_as_uni(db))
                } else {
                    self
                },
                _ => self,
            }),
    {
        match self {
            ThrowKind::Result(ok, err) => {
                if err.is_owned(db) {
                    ThrowKind::Result(ok, err.as_uni(db))
                } else {
                    self
                }
            },
            kind => kind,
        }
    }
}

} // verus!
