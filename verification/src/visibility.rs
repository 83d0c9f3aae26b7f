//! Who can see a symbol or a field, and how a method is called.
use vstd::prelude::*;
use std::path::PathBuf;
use crate::database::Database;
use crate::kinds::{MethodKind, Receiver, Symbol, Visibility};
use crate::module_name::same_root_namespace;
use crate::type_ref::{ClassInstance, FieldId, MethodId, ModuleId, TypeId, TypeRef};

verus! {

impl Symbol {
    /// The entity that the symbol names is in the database.
    pub open spec fn exists_in(self, db: &Database) -> bool {
        crate::database::symbol_valid(self, db.bounds())
    }

    /// True if the symbol is public. Modules and type parameters always are.
    pub open spec fn spec_is_public(self, db: &Database) -> bool {
        match self {
            Symbol::Method(id) => db.method(id).visibility is Public,
            Symbol::Class(id) => db.class(id).visibility is Public,
            Symbol::Trait(id) => db.trait_(id).visibility is Public,
            Symbol::Constant(id) => db.constant(id).visibility is Public,
            _ => true,
        }
    }

    /// The module in which the symbol is defined, for the symbols that can be
    /// private.
    pub open spec fn home(self, db: &Database) -> Option<ModuleId> {
        match self {
            Symbol::Method(id) => Some(db.method(id).module),
            Symbol::Class(id) => Some(db.class(id).module),
            Symbol::Trait(id) => Some(db.trait_(id).module),
            Symbol::Constant(id) => Some(db.constant(id).module),
            _ => None,
        }
    }

    /// The visibility that the symbol was declared with. Modules and type
    /// parameters are public.
    pub open spec fn visibility(self, db: &Database) -> Visibility {
        match self {
            Symbol::Method(id) => db.method(id).visibility,
            Symbol::Class(id) => db.class(id).visibility,
            Symbol::Trait(id) => db.trait_(id).visibility,
            Symbol::Constant(id) => db.constant(id).visibility,
            _ => Visibility::Public,
        }
    }

    /// Whether the symbol can be seen from `module`: a public symbol from
    /// everywhere; a private symbol from the modules in the root namespace of
    /// its own module, and from the root module that tests that namespace; a
    /// symbol that is private to its type from no module at all.
    pub open spec fn visible_to(self, db: &Database, module: ModuleId) -> bool {
        match self.visibility(db) {
            Visibility::Public => true,
            Visibility::Private => same_root_namespace(
                db.module_at(self.home(db).unwrap()).name@,
                db.module_at(module).name@,
            ),
            Visibility::TypePrivate => false,
        }
    }

    pub fn is_public(self, db: &Database) -> (r: bool)
        requires
            self.exists_in(db),
        ensures
            r == self.spec_is_public(db),
    {
        match self {
            Symbol::Method(id) => id.is_public(db),
            Symbol::Class(id) => id.is_public(db),
            Symbol::Trait(id) => id.is_public(db),
            Symbol::Constant(id) => id.is_public(db),
            _ => true,
        }
    }

    pub fn is_private(self, db: &Database) -> (r: bool)
        requires
            self.exists_in(db),
        ensures
            r == !self.spec_is_public(db),
    {
        !self.is_public(db)
    }

    /// Whether the symbol can be seen from `module`: see `visible_to`.
    pub fn is_visible_to(self, db: &Database, module: ModuleId) -> (r: bool)
        requires
            self.exists_in(db),
            self.visibility(db) is Private ==> db.has_module(module) && db.has_module(
                self.home(db).unwrap(),
            ),
        ensures
            r == self.visible_to(db, module),
    {
        let (visibility, mod_id) = match self {
            Symbol::Method(id) => (db.methods[id.0 as usize].visibility, id.module(db)),
            Symbol::Class(id) => (db.classes[id.0 as usize].visibility, id.module(db)),
            Symbol::Trait(id) => (db.traits[id.0 as usize].visibility, id.module(db)),
            Symbol::Constant(id) => (db.constants[id.0].visibility, db.constants[id.0].module),
            _ => {
                return true;
            },
        };

        match visibility {
            Visibility::Public => true,
            Visibility::Private => mod_id.has_same_root_namespace(db, module),
            Visibility::TypePrivate => false,
        }
    }
}

impl FieldId {
    /// Whether the field can be seen from `module`: a public field from
    /// everywhere, a private field from the root namespace of its module, and
    /// a field that is private to its type from nowhere. Such fields can only
    /// be reached from inside their class, which needs no check.
    pub fn is_visible_to(self, db: &Database, module: ModuleId) -> (r: bool)
        requires
            db.has_field(self),
            db.field(self).visibility is Private ==> db.has_module(module) && db.has_module(
                db.field(self).module,
            ),
        ensures
            r == (match db.field(self).visibility {
                Visibility::Public => true,
                Visibility::Private => same_root_namespace(
                    db.module_at(db.field(self).module).name@,
                    db.module_at(module).name@,
                ),
                Visibility::TypePrivate => false,
            }),
    {
        let field = &db.fields[self.0];

        match field.visibility {
            Visibility::Public => true,
            Visibility::Private => field.module.has_same_root_namespace(db, module),
            Visibility::TypePrivate => false,
        }
    }
}

impl Receiver {
    /// The receiver of a call of `method` that names none: none for an
    /// external method, a class if the method is one of a class or module
    /// itself, and `self` otherwise.
    pub fn without_receiver(db: &Database, method: MethodId) -> (r: Receiver)
        requires
            db.wf(),
            db.has_method(method),
        ensures
            r == (if db.method(method).kind is Extern {
                Receiver::Extern
            } else if db.method(method).receiver matches TypeRef::Owned(id) && (id is Class
                || id is Module) {
                Receiver::Class
            } else {
                Receiver::Implicit
            }),
    {
        if method.is_extern(db) {
            return Receiver::Extern;
        }
        match method.receiver(db).as_class(db) {
            Some(_) => Receiver::Class,
            None => Receiver::Implicit,
        }
    }

    /// The receiver of a call of `method` on `receiver`: none for an external
    /// method, a class if `receiver` is a class or module itself, and the
    /// receiver as it is written otherwise.
    pub fn with_receiver(db: &Database, receiver: TypeRef, method: MethodId) -> (r: Receiver)
        requires
            db.has_method(method),
            receiver.valid(db.bounds()),
        ensures
            r == (if db.method(method).kind is Extern {
                Receiver::Extern
            } else if receiver matches TypeRef::Owned(id) && (id is Class || id is Module) {
                Receiver::Class
            } else {
                Receiver::Explicit
            }),
    {
        if method.is_extern(db) {
            return Receiver::Extern;
        }
        match receiver.as_class(db) {
            Some(_) => Receiver::Class,
            None => Receiver::Explicit,
        }
    }

    /// The receiver of a call of `method` on a module.
    pub fn with_module(db: &Database, method: MethodId) -> (r: Receiver)
        requires
            db.has_method(method),
        ensures
            r == (if db.method(method).kind is Extern {
                Receiver::Extern
            } else {
                Receiver::Class
            }),
    {
        if method.is_extern(db) {
            return Receiver::Extern;
        }
        Receiver::Class
    }
}

impl MethodId {
    /// The type of `self` inside the method, for a receiver that is
    /// `instance`.
    ///
    /// Async methods always access `self` through a borrow even though
    /// processes are value types: an immutable async method must not mutate
    /// the state of its process. For other value types `self` is an owned
    /// value. Otherwise the kind of the method decides.
    pub open spec fn spec_receiver_for_class_instance(
        self,
        db: &Database,
        instance: ClassInstance,
    ) -> TypeRef {
        let rec_id = TypeId::ClassInstance(instance);
        match db.method(self).kind {
            MethodKind::Async => TypeRef::Ref(rec_id),
            MethodKind::AsyncMutable => TypeRef::Mut(rec_id),
            kind => if db.method(self).receiver.spec_is_value_type(db) && !(db.class(
                instance.instance_of,
            ).kind is Async) {
                TypeRef::Owned(rec_id)
            } else {
                match kind {
                    MethodKind::Instance => TypeRef::Ref(rec_id),
                    MethodKind::Mutable | MethodKind::Destructor => TypeRef::Mut(rec_id),
                    MethodKind::Static | MethodKind::Constructor => TypeRef::Owned(
                        TypeId::Class(instance.instance_of),
                    ),
                    MethodKind::Moving => TypeRef::Owned(rec_id),
                    _ => TypeRef::Unknown,
                }
            },
        }
    }

    /// The type of `self` inside the method, for a receiver that is
    /// `instance`: see `spec_receiver_for_class_instance`.
    pub fn receiver_for_class_instance(self, db: &Database, instance: ClassInstance) -> (r: TypeRef)
        requires
            db.wf(),
            db.has_method(self),
            db.has_class(instance.instance_of),
        ensures
            r == self.spec_receiver_for_class_instance(db, instance),
    {
        let rec_id = TypeId::ClassInstance(instance);
        let kind = self.kind(db);

        match kind {
            MethodKind::Async => {
                return TypeRef::Ref(rec_id);
            },
            MethodKind::AsyncMutable => {
                return TypeRef::Mut(rec_id);
            },
            _ => {},
        }
        if self.receiver(db).is_value_type(db) && !instance.instance_of().kind(db).is_async() {
            return TypeRef::Owned(rec_id);
        }
        match kind {
            MethodKind::Instance => TypeRef::Ref(rec_id),
            MethodKind::Mutable | MethodKind::Destructor => TypeRef::Mut(rec_id),
            MethodKind::Static | MethodKind::Constructor => {
                TypeRef::Owned(TypeId::Class(instance.instance_of()))
            },
            MethodKind::Moving => TypeRef::Owned(rec_id),
            _ => TypeRef::Unknown,
        }
    }

    /// The type that the receiver of the method refers to, which it must do.
    pub fn receiver_id(self, db: &Database) -> (r: TypeId)
        requires
            db.wf(),
            db.has_method(self),
            db.method(self).receiver.spec_type_id(db) is Ok,
        ensures
            Ok::<TypeId, TypeRef>(r) == db.method(self).receiver.spec_type_id(db),
    {
        match self.receiver(db).type_id(db) {
            Ok(id) => id,
            Err(_) => unreached(),
        }
    }

    /// True if a call of the method gives a value: the method has a return
    /// type, and it is not `Never`.
    pub fn returns_value(self, db: &Database) -> (r: bool)
        requires
            db.wf(),
            db.has_method(self),
        ensures
            r == (!(db.method(self).call_convention is C && db.method(self).return_type
                == TypeRef::owned_instance(crate::NIL_ID)) && !(db.method(
                self,
            ).return_type.resolved(db) is Never)),
    {
        proof {
            assert(db.methods@[self.0 as int].wf(db.bounds()));
        }
        self.has_return_type(db) && !db.methods[self.0 as usize].return_type.is_never(db)
    }

    /// Returns the file path in which the method is defined.
    ///
    /// For default trait methods that aren't overwritten, this returns the path
    /// of the module the trait is defined in.
    pub fn source_file(self, db: &Database) -> (r: PathBuf)
        requires
            db.wf(),
            db.has_method(self),
            db.has_module(db.defining_module(self)),
        ensures
            r == db.module_at(db.defining_module(self)).file,
    {
        proof {
            assert(db.methods@[self.0 as int].wf(db.bounds()));
        }
        self.source_module(db).file(db)
    }

    /// The method of which the documentation is that of `self`, looking at
    /// most `fuel` methods up: the method itself if it has documentation or
    /// is defined directly, and else what holds of the method of a trait that
    /// it implements or inherits.
    pub open spec fn documented_by(self, db: &Database, fuel: nat) -> Option<MethodId>
        decreases fuel,
    {
        if db.method(self).documentation@.len() > 0 {
            Some(self)
        } else {
            match db.method(self).source {
                crate::kinds::MethodSource::Direct => Some(self),
                crate::kinds::MethodSource::Implemented(_, v)
                | crate::kinds::MethodSource::Inherited(_, v) => if fuel == 0 {
                    None
                } else {
                    v.documented_by(db, (fuel - 1) as nat)
                },
            }
        }
    }

    /// Looking for documented methods up from `self` comes to an end.
    pub open spec fn documentation_ends(self, db: &Database) -> bool {
        exists|fuel: nat| self.documented_by(db, fuel) is Some
    }

    /// The documentation of the method. A method that implements or inherits
    /// a method of a trait and has no documentation of its own has that of the
    /// method of the trait.
    pub fn documentation(self, db: &Database) -> (r: &String)
        requires
            db.wf(),
            db.has_method(self),
            self.documentation_ends(db),
        ensures
            *r == db.method(
                self.documented_by(
                    db,
                    choose|fuel: nat| self.documented_by(db, fuel) is Some,
                ).unwrap(),
            ).documentation,
    {
        self.documentation_within(
            db,
            Ghost(choose|fuel: nat| self.documented_by(db, fuel) is Some),
        )
    }

    fn documentation_within(self, db: &Database, Ghost(fuel): Ghost<nat>) -> (r: &String)
        requires
            db.wf(),
            db.has_method(self),
            self.documented_by(db, fuel) is Some,
        ensures
            *r == db.method(self.documented_by(db, fuel).unwrap()).documentation,
        decreases fuel,
    {
        let method = &db.methods[self.0 as usize];

        if method.documentation.as_str().is_empty() {
            // For methods implemented through a trait, the documentation is
            // inherited if not overwritten explicitly.
            if let Some(id) = self.original_method(db) {
                id.documentation_within(db, Ghost((fuel - 1) as nat))
            } else {
                &method.documentation
            }
        } else {
            &method.documentation
        }
    }
}

} // verus!
