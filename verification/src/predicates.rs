//! Questions about references to types.
//!
//! A placeholder answers as its value does. What a placeholder without a value
//! answers is stated with each question.
use vstd::prelude::*;
use crate::collections::copies::fields_of;
use crate::database::Database;
use crate::type_ref::{
    ClassId, ClassInstance, ClosureId, FieldId, ForeignType, Sign, TraitInstance, TypeId,
    TypeParameterId, TypeRef,
};
use crate::{BOOL_ID, INT_ID, NIL_ID, STRING_ID};

verus! {

impl TypeRef {
    /// One of the seven kinds of reference that state an ownership or leave it
    /// open: everything that holds a type but a pointer.
    pub open spec fn qualified(self) -> bool {
        self.inner() is Some && !(self is Pointer)
    }

    /// The class of the instance `self` refers to, whatever the ownership and
    /// also behind a pointer; or the class that `self` refers to as an owned
    /// value, which for a module is the class of its static methods.
    pub open spec fn class_of_resolved(self, db: &Database) -> Option<ClassId> {
        match self {
            TypeRef::Any(_) => None,
            TypeRef::Owned(TypeId::Class(id)) => Some(id),
            TypeRef::Owned(TypeId::Module(id)) => Some(db.module_at(id).class),
            _ => match self.inner() {
                Some(TypeId::ClassInstance(ins)) => Some(ins.instance_of),
                _ => None,
            },
        }
    }

    pub open spec fn spec_class_id(self, db: &Database) -> Option<ClassId> {
        self.resolved(db).class_of_resolved(db)
    }

    /// True for a foreign type: an owned instance of a C structure, an owned
    /// value of a C type, or a pointer.
    pub open spec fn foreign_resolved(self, db: &Database) -> bool {
        match self {
            TypeRef::Owned(id) => id.extern_instance(db) || id is Foreign,
            TypeRef::Pointer(_) => true,
            _ => false,
        }
    }

    /// True if a value of this type can be mutated: see `allow_mutating`.
    pub open spec fn mutating_resolved(self, db: &Database) -> bool {
        match self {
            TypeRef::Owned(TypeId::ClassInstance(ins)) | TypeRef::Mut(TypeId::ClassInstance(ins)) =>
                {
                db.class(ins.instance_of).mutable()
            },
            TypeRef::Owned(_)
            | TypeRef::Uni(_)
            | TypeRef::Mut(_)
            | TypeRef::UniMut(_)
            | TypeRef::Pointer(_) => true,
            TypeRef::Any(id) => id.mutable_parameter(db),
            TypeRef::Ref(TypeId::ClassInstance(ins)) => db.class(ins.instance_of).copied_freely()
                && !(db.class(ins.instance_of).kind is Async),
            _ => false,
        }
    }

    /// True if a value of this type lives on the stack: see
    /// `is_stack_allocated`.
    pub open spec fn stack_resolved(self, db: &Database) -> bool {
        match self {
            TypeRef::Error | TypeRef::Pointer(_) => true,
            _ => match self.inner() {
                Some(id) => id.stack_instance(db) || id.stack_parameter(db) || id is Foreign,
                None => false,
            },
        }
    }

    /// The type parameter that is referred to: a rigid one under any
    /// ownership, a plain one under any ownership but that of a unique borrow.
    pub open spec fn parameter_resolved(self) -> Option<TypeParameterId> {
        match self {
            TypeRef::Pointer(_) => None,
            TypeRef::UniRef(TypeId::TypeParameter(_)) | TypeRef::UniMut(TypeId::TypeParameter(_)) =>
                {
                None
            },
            _ => match self.inner() {
                Some(id) => id.parameter(),
                None => None,
            },
        }
    }

    pub open spec fn spec_as_type_parameter(self, db: &Database) -> Option<TypeParameterId> {
        self.resolved(db).parameter_resolved()
    }

    /// The closure that `self` refers to.
    pub fn closure_id(self, db: &Database) -> (r: Option<ClosureId>)
        requires
            db.wf(),
            self.valid(db.bounds()),
        ensures
            r == (match self.resolved(db).inner() {
                Some(TypeId::Closure(id)) => Some(id),
                _ => None,
            }),
            r matches Some(id) ==> db.has_closure(id),
    {
        if let Ok(TypeId::Closure(id)) = self.type_id(db) {
            Some(id)
        } else {
            None
        }
    }

    pub fn is_never(self, db: &Database) -> (r: bool)
        requires
            db.wf(),
            self.valid(db.bounds()),
        ensures
            r == (self.resolved(db) is Never),
    {
        matches!(self.resolve(db), TypeRef::Never)
    }

    /// Unique borrows and foreign types can't be stored in an array. A
    /// placeholder without a value can.
    pub fn allow_in_array(self, db: &Database) -> (r: bool)
        requires
            db.wf(),
            self.valid(db.bounds()),
        ensures
            r == !(self.resolved(db) is UniRef || self.resolved(db) is UniMut || self.resolved(
                db,
            ).foreign_resolved(db)),
    {
        let t = self.resolve(db);
        match t {
            TypeRef::UniRef(_) | TypeRef::UniMut(_) => false,
            TypeRef::Placeholder(_) => true,
            _ => !t.is_foreign_type_resolved(db),
        }
    }

    pub(crate) fn is_foreign_type_resolved(self, db: &Database) -> (r: bool)
        requires
            self.valid(db.bounds()),
        ensures
            r == self.foreign_resolved(db),
    {
        match self {
            TypeRef::Owned(TypeId::ClassInstance(ins)) => ins.instance_of.kind(db).is_extern(),
            TypeRef::Owned(TypeId::Foreign(_)) => true,
            TypeRef::Pointer(_) => true,
            _ => false,
        }
    }

    pub fn is_foreign_type(self, db: &Database) -> (r: bool)
        requires
            db.wf(),
            self.valid(db.bounds()),
        ensures
            r == self.resolved(db).foreign_resolved(db),
    {
        self.resolve(db).is_foreign_type_resolved(db)
    }

    pub fn is_pointer(self, db: &Database) -> (r: bool)
        requires
            db.wf(),
            self.valid(db.bounds()),
        ensures
            r == (self.resolved(db) is Pointer),
    {
        matches!(self.resolve(db), TypeRef::Pointer(_))
    }

    pub fn is_error(self, db: &Database) -> (r: bool)
        requires
            db.wf(),
            self.valid(db.bounds()),
        ensures
            r == (self.resolved(db) is Error),
    {
        matches!(self.resolve(db), TypeRef::Error)
    }

    /// True if a value of this type can come about: the type is neither
    /// `Never` nor a placeholder without a value.
    pub fn is_present(self, db: &Database) -> (r: bool)
        requires
            db.wf(),
            self.valid(db.bounds()),
        ensures
            r == !(self.resolved(db) is Never || self.resolved(db) is Placeholder),
    {
        !matches!(self.resolve(db), TypeRef::Never | TypeRef::Placeholder(_))
    }

    pub fn is_owned_or_uni(self, db: &Database) -> (r: bool)
        requires
            db.wf(),
            self.valid(db.bounds()),
        ensures
            r == (self.resolved(db) is Owned || self.resolved(db) is Uni || self.resolved(
                db,
            ) is Any),
    {
        matches!(self.resolve(db), TypeRef::Owned(_) | TypeRef::Uni(_) | TypeRef::Any(_))
    }

    pub fn is_owned(self, db: &Database) -> (r: bool)
        requires
            db.wf(),
            self.valid(db.bounds()),
        ensures
            r == (self.resolved(db) is Owned),
    {
        matches!(self.resolve(db), TypeRef::Owned(_))
    }

    /// True for a reference to a type parameter, be it plain, rigid or atomic,
    /// that is no pointer.
    pub fn is_type_parameter(self, db: &Database) -> (r: bool)
        requires
            db.wf(),
            self.valid(db.bounds()),
        ensures
            r == (self.resolved(db).qualified() && (self.resolved(db).inner().unwrap().parameter()
                is Some || self.resolved(db).inner().unwrap() is AtomicTypeParameter)),
    {
        match self.resolve(db) {
            TypeRef::Owned(id)
            | TypeRef::Uni(id)
            | TypeRef::Ref(id)
            | TypeRef::Mut(id)
            | TypeRef::Any(id)
            | TypeRef::UniRef(id)
            | TypeRef::UniMut(id) => matches!(
                id,
                TypeId::TypeParameter(_)
                    | TypeId::RigidTypeParameter(_)
                    | TypeId::AtomicTypeParameter(_)
            ),
            _ => false,
        }
    }

    /// True for a reference to a rigid type parameter, also behind a pointer.
    pub fn is_rigid_type_parameter(self, db: &Database) -> (r: bool)
        requires
            db.wf(),
            self.valid(db.bounds()),
        ensures
            r == (self.resolved(db).inner() matches Some(TypeId::RigidTypeParameter(_))),
    {
        matches!(self.type_id(db), Ok(TypeId::RigidTypeParameter(_)))
    }

    /// True for an instance of a trait that is held under a stated ownership.
    pub fn is_trait_instance(self, db: &Database) -> (r: bool)
        requires
            db.wf(),
            self.valid(db.bounds()),
        ensures
            r == (self.resolved(db).qualified() && !(self.resolved(db) is Any) && self.resolved(
                db,
            ).inner().unwrap() is TraitInstance),
    {
        match self.resolve(db) {
            TypeRef::Owned(TypeId::TraitInstance(_))
            | TypeRef::Uni(TypeId::TraitInstance(_))
            | TypeRef::Ref(TypeId::TraitInstance(_))
            | TypeRef::Mut(TypeId::TraitInstance(_))
            | TypeRef::UniRef(TypeId::TraitInstance(_))
            | TypeRef::UniMut(TypeId::TraitInstance(_)) => true,
            _ => false,
        }
    }

    /// True if the arguments of a call on a value of this type must be
    /// sendable: the value is unique or a unique borrow.
    pub fn require_sendable_arguments(self, db: &Database) -> (r: bool)
        requires
            db.wf(),
            self.valid(db.bounds()),
        ensures
            r == (self.resolved(db) is Uni || self.resolved(db) is UniRef || self.resolved(
                db,
            ) is UniMut),
    {
        matches!(self.resolve(db), TypeRef::Uni(_) | TypeRef::UniRef(_) | TypeRef::UniMut(_))
    }

    pub fn is_sendable_ref(self, db: &Database) -> (r: bool)
        requires
            db.wf(),
            self.valid(db.bounds()),
        ensures
            r == (self.resolved(db) is Ref || self.resolved(db) is UniRef),
    {
        matches!(self.resolve(db), TypeRef::Ref(_) | TypeRef::UniRef(_))
    }

    /// True if the reference states how the value is held: owned, unique,
    /// borrowed, or behind a pointer.
    pub fn has_ownership(self, db: &Database) -> (r: bool)
        requires
            db.wf(),
            self.valid(db.bounds()),
        ensures
            r == (self.resolved(db) is Owned || self.resolved(db) is Uni || self.resolved(
                db,
            ) is Ref || self.resolved(db) is Mut || self.resolved(db) is Pointer),
    {
        matches!(
            self.resolve(db),
            TypeRef::Owned(_)
                | TypeRef::Uni(_)
                | TypeRef::Ref(_)
                | TypeRef::Mut(_)
                | TypeRef::Pointer(_)
        )
    }

    /// True for the borrows: they are counted.
    pub fn use_reference_counting(self, db: &Database) -> (r: bool)
        requires
            db.wf(),
            self.valid(db.bounds()),
        ensures
            r == (self.resolved(db) is Ref || self.resolved(db) is Mut || self.resolved(
                db,
            ) is UniRef || self.resolved(db) is UniMut),
    {
        matches!(
            self.resolve(db),
            TypeRef::Ref(_) | TypeRef::Mut(_) | TypeRef::UniRef(_) | TypeRef::UniMut(_)
        )
    }

    pub(crate) fn class_id_resolved(self, db: &Database) -> (r: Option<ClassId>)
        requires
            db.wf(),
            self.valid(db.bounds()),
        ensures
            r == self.class_of_resolved(db),
            r matches Some(id) ==> db.has_class(id),
    {
        match self {
            TypeRef::Owned(TypeId::ClassInstance(ins))
            | TypeRef::Uni(TypeId::ClassInstance(ins))
            | TypeRef::Ref(TypeId::ClassInstance(ins))
            | TypeRef::Mut(TypeId::ClassInstance(ins))
            | TypeRef::UniMut(TypeId::ClassInstance(ins))
            | TypeRef::UniRef(TypeId::ClassInstance(ins))
            | TypeRef::Pointer(TypeId::ClassInstance(ins)) => Some(ins.instance_of),
            TypeRef::Owned(TypeId::Class(id)) => Some(id),
            TypeRef::Owned(TypeId::Module(id)) => Some(id.class(db)),
            _ => None,
        }
    }

    /// The class that `self` refers to, or refers to an instance of.
    pub fn class_id(self, db: &Database) -> (r: Option<ClassId>)
        requires
            db.wf(),
            self.valid(db.bounds()),
        ensures
            r == self.spec_class_id(db),
            r matches Some(id) ==> db.has_class(id),
    {
        self.resolve(db).class_id_resolved(db)
    }

    pub fn use_atomic_reference_counting(self, db: &Database) -> (r: bool)
        requires
            db.wf(),
            self.valid(db.bounds()),
        ensures
            r == (self.spec_class_id(db) matches Some(id) && (db.class(id).kind is Async
                || db.class(id).kind is Atomic)),
    {
        match self.class_id(db) {
            Some(id) => id.is_atomic(db),
            None => false,
        }
    }

    pub fn is_bool(self, db: &Database) -> (r: bool)
        requires
            db.wf(),
            self.valid(db.bounds()),
        ensures
            r == (self.spec_class_id(db) == Some(ClassId(BOOL_ID))),
    {
        self.is_instance_of(db, ClassId::boolean())
    }

    pub fn is_int(self, db: &Database) -> (r: bool)
        requires
            db.wf(),
            self.valid(db.bounds()),
        ensures
            r == (self.spec_class_id(db) == Some(ClassId(INT_ID))),
    {
        self.is_instance_of(db, ClassId::integer())
    }

    pub fn is_string(self, db: &Database) -> (r: bool)
        requires
            db.wf(),
            self.valid(db.bounds()),
        ensures
            r == (self.spec_class_id(db) == Some(ClassId(STRING_ID))),
    {
        self.is_instance_of(db, ClassId::string())
    }

    pub fn is_nil(self, db: &Database) -> (r: bool)
        requires
            db.wf(),
            self.valid(db.bounds()),
        ensures
            r == (self.spec_class_id(db) == Some(ClassId(NIL_ID))),
    {
        self.is_instance_of(db, ClassId::nil())
    }

    pub fn is_instance_of(self, db: &Database, id: ClassId) -> (r: bool)
        requires
            db.wf(),
            self.valid(db.bounds()),
        ensures
            r == (self.spec_class_id(db) == Some(id)),
    {
        match self.class_id(db) {
            Some(found) => found == id,
            None => false,
        }
    }

    /// Owned and unique values can be moved, and so can unique borrows of
    /// instances that live on the stack.
    pub fn allow_moving(self, db: &Database) -> (r: bool)
        requires
            db.wf(),
            self.valid(db.bounds()),
        ensures
            r == (match self.resolved(db) {
                TypeRef::Owned(_) | TypeRef::Uni(_) => true,
                TypeRef::UniRef(id) | TypeRef::UniMut(id) => id.stack_instance(db),
                _ => false,
            }),
    {
        match self.resolve(db) {
            TypeRef::Owned(_) | TypeRef::Uni(_) => true,
            TypeRef::UniRef(TypeId::ClassInstance(i)) | TypeRef::UniMut(
                TypeId::ClassInstance(i),
            ) => i.instance_of.is_stack_allocated(db),
            _ => false,
        }
    }

    /// True if a value of this type can be mutated: an owned or mutably
    /// borrowed instance if its class allows it; any other owned, unique or
    /// mutably borrowed value and what is behind a pointer; a type parameter
    /// of open ownership if it is mutable; an immutably borrowed instance if it
    /// is a value type but no process.
    pub fn allow_mutating(self, db: &Database) -> (r: bool)
        requires
            db.wf(),
            self.valid(db.bounds()),
        ensures
            r == self.resolved(db).mutating_resolved(db),
    {
        match self.resolve(db) {
            TypeRef::Owned(TypeId::ClassInstance(ins)) | TypeRef::Mut(TypeId::ClassInstance(ins)) =>
                {
                ins.instance_of.allow_mutating(db)
            },
            TypeRef::Owned(_)
            | TypeRef::Uni(_)
            | TypeRef::Mut(_)
            | TypeRef::UniMut(_)
            | TypeRef::Pointer(_) => true,
            TypeRef::Any(id) => id.is_mutable_parameter(db),
            TypeRef::Ref(TypeId::ClassInstance(ins)) => {
                ins.instance_of.is_value_type(db) && !ins.instance_of().kind(db).is_async()
            },
            _ => false,
        }
    }

    /// The instance that a pattern can be matched against: an owned, unique
    /// or borrowed instance of a regular class or a C structure.
    pub fn as_class_instance_for_pattern_matching(self, db: &Database) -> (r: Option<ClassInstance>)
        requires
            db.wf(),
            self.valid(db.bounds()),
        ensures
            r == (match self.resolved(db) {
                TypeRef::Owned(TypeId::ClassInstance(ins))
                | TypeRef::Uni(TypeId::ClassInstance(ins))
                | TypeRef::Mut(TypeId::ClassInstance(ins))
                | TypeRef::Ref(TypeId::ClassInstance(ins)) => if db.class(
                    ins.instance_of,
                ).kind is Regular || db.class(ins.instance_of).kind is Extern {
                    Some(ins)
                } else {
                    None
                },
                _ => None,
            }),
    {
        match self.resolve(db) {
            TypeRef::Owned(TypeId::ClassInstance(ins))
            | TypeRef::Uni(TypeId::ClassInstance(ins))
            | TypeRef::Mut(TypeId::ClassInstance(ins))
            | TypeRef::Ref(TypeId::ClassInstance(ins)) => {
                if ins.instance_of.kind(db).allow_pattern_matching() {
                    Some(ins)
                } else {
                    None
                }
            },
            _ => None,
        }
    }

    pub fn is_uni_ref(self, db: &Database) -> (r: bool)
        requires
            db.wf(),
            self.valid(db.bounds()),
        ensures
            r == (self.resolved(db) is UniRef || self.resolved(db) is UniMut),
    {
        matches!(self.resolve(db), TypeRef::UniRef(_) | TypeRef::UniMut(_))
    }

    /// True if an immutable borrow of this type can be asked for.
    pub fn allow_as_ref(self, db: &Database) -> (r: bool)
        requires
            db.wf(),
            self.valid(db.bounds()),
        ensures
            r == (self.resolved(db) is Owned || self.resolved(db) is Mut || self.resolved(
                db,
            ) is Ref || self.resolved(db) is Uni || self.resolved(db) is Any || self.resolved(
                db,
            ) is Error),
    {
        matches!(
            self.resolve(db),
            TypeRef::Owned(_)
                | TypeRef::Mut(_)
                | TypeRef::Ref(_)
                | TypeRef::Uni(_)
                | TypeRef::Any(_)
                | TypeRef::Error
        )
    }

    /// The instance of an enum class that `self` is stated to be, owned,
    /// unique or borrowed. Placeholders are not looked into.
    pub fn as_enum_instance(self, db: &Database) -> (r: Option<ClassInstance>)
        requires
            self.valid(db.bounds()),
        ensures
            r == (match self {
                TypeRef::Owned(TypeId::ClassInstance(ins))
                | TypeRef::Uni(TypeId::ClassInstance(ins))
                | TypeRef::Ref(TypeId::ClassInstance(ins))
                | TypeRef::Mut(TypeId::ClassInstance(ins)) => if db.class(
                    ins.instance_of,
                ).kind is Enum {
                    Some(ins)
                } else {
                    None
                },
                _ => None,
            }),
    {
        match self {
            TypeRef::Owned(TypeId::ClassInstance(ins))
            | TypeRef::Uni(TypeId::ClassInstance(ins))
            | TypeRef::Ref(TypeId::ClassInstance(ins))
            | TypeRef::Mut(TypeId::ClassInstance(ins)) => {
                if ins.instance_of.kind(db).is_enum() {
                    Some(ins)
                } else {
                    None
                }
            },
            _ => None,
        }
    }

    pub fn as_trait_instance(self, db: &Database) -> (r: Option<TraitInstance>)
        requires
            db.wf(),
            self.valid(db.bounds()),
        ensures
            r == (match self.resolved(db).inner() {
                Some(TypeId::TraitInstance(ins)) => Some(ins),
                _ => None,
            }),
            r matches Some(ins) ==> db.has_trait(ins.instance_of),
    {
        if let Ok(TypeId::TraitInstance(ins)) = self.type_id(db) {
            Some(ins)
        } else {
            None
        }
    }

    pub fn as_class_instance(self, db: &Database) -> (r: Option<ClassInstance>)
        requires
            db.wf(),
            self.valid(db.bounds()),
        ensures
            r == (match self.resolved(db).inner() {
                Some(TypeId::ClassInstance(ins)) => Some(ins),
                _ => None,
            }),
            r matches Some(ins) ==> db.has_class(ins.instance_of),
    {
        if let Ok(TypeId::ClassInstance(ins)) = self.type_id(db) {
            Some(ins)
        } else {
            None
        }
    }

    /// The class that `self` is stated to be as an owned value: a class, or
    /// the class of the static methods of a module. Placeholders are not
    /// looked into.
    pub fn as_class(self, db: &Database) -> (r: Option<ClassId>)
        requires
            self.valid(db.bounds()),
        ensures
            r == (match self {
                TypeRef::Owned(TypeId::Class(id)) => Some(id),
                TypeRef::Owned(TypeId::Module(id)) => Some(db.module_at(id).class),
                _ => None,
            }),
    {
        match self {
            TypeRef::Owned(TypeId::Class(id)) => Some(id),
            TypeRef::Owned(TypeId::Module(id)) => Some(id.class(db)),
            _ => None,
        }
    }

    pub fn as_type_parameter(self, db: &Database) -> (r: Option<TypeParameterId>)
        requires
            db.wf(),
            self.valid(db.bounds()),
        ensures
            r == self.spec_as_type_parameter(db),
            r matches Some(id) ==> db.has_type_parameter(id),
    {
        match self.resolve(db) {
            TypeRef::Owned(TypeId::TypeParameter(id))
            | TypeRef::Uni(TypeId::TypeParameter(id))
            | TypeRef::Ref(TypeId::TypeParameter(id))
            | TypeRef::Mut(TypeId::TypeParameter(id))
            | TypeRef::Any(TypeId::TypeParameter(id))
            | TypeRef::Owned(TypeId::RigidTypeParameter(id))
            | TypeRef::Uni(TypeId::RigidTypeParameter(id))
            | TypeRef::Ref(TypeId::RigidTypeParameter(id))
            | TypeRef::Mut(TypeId::RigidTypeParameter(id))
            | TypeRef::UniRef(TypeId::RigidTypeParameter(id))
            | TypeRef::UniMut(TypeId::RigidTypeParameter(id))
            | TypeRef::Any(TypeId::RigidTypeParameter(id)) => Some(id),
            _ => None,
        }
    }

    /// The fields of the class of which `self` is an instance held under a
    /// stated ownership, in the order in which they were added.
    pub fn fields(self, db: &Database) -> (r: Vec<FieldId>)
        requires
            db.wf(),
            self.valid(db.bounds()),
        ensures
            r@ == (match self.resolved(db).instance() {
                Some(ins) => fields_of(&db.class(ins.instance_of).fields, 0),
                None => Seq::<FieldId>::empty(),
            }),
    {
        match self.resolve(db) {
            TypeRef::Owned(TypeId::ClassInstance(ins))
            | TypeRef::Uni(TypeId::ClassInstance(ins))
            | TypeRef::Mut(TypeId::ClassInstance(ins))
            | TypeRef::Ref(TypeId::ClassInstance(ins))
            | TypeRef::UniRef(TypeId::ClassInstance(ins))
            | TypeRef::UniMut(TypeId::ClassInstance(ins)) => ins.instance_of().fields(db),
            _ => Vec::new(),
        }
    }

    /// Returns `true` if the type is allocated on the stack: an instance of a
    /// class that lives on the stack, a type parameter that is limited to such
    /// types, a value of a C type, a pointer, or an error.
    pub fn is_stack_allocated(self, db: &Database) -> (r: bool)
        requires
            db.wf(),
            self.valid(db.bounds()),
        ensures
            r == self.resolved(db).stack_resolved(db),
    {
        match self.resolve(db) {
            TypeRef::Owned(id)
            | TypeRef::Uni(id)
            | TypeRef::Ref(id)
            | TypeRef::UniRef(id)
            | TypeRef::Mut(id)
            | TypeRef::UniMut(id)
            | TypeRef::Any(id) => match id {
                TypeId::ClassInstance(ins) => ins.instance_of().is_stack_allocated(db),
                TypeId::TypeParameter(tid) | TypeId::RigidTypeParameter(tid) => {
                    tid.is_stack_allocated(db)
                },
                TypeId::Foreign(_) => true,
                _ => false,
            },
            TypeRef::Error | TypeRef::Pointer(_) => true,
            _ => false,
        }
    }

    /// True for the signed integers: the signed integers of C, and `Int`.
    pub fn is_signed_int(self, db: &Database) -> (r: bool)
        requires
            db.wf(),
            self.valid(db.bounds()),
        ensures
            r == (match self.resolved(db).inner() {
                Some(TypeId::Foreign(ForeignType::Int(_, Sign::Signed))) => true,
                Some(TypeId::ClassInstance(ins)) => ins.instance_of.0 == INT_ID,
                _ => false,
            }),
    {
        let id = match self.type_id(db) {
            Ok(id) => id,
            Err(_) => {
                return false;
            },
        };

        match id {
            TypeId::Foreign(ForeignType::Int(_, Sign::Signed)) => true,
            TypeId::ClassInstance(ins) => ins.instance_of().0 == INT_ID,
            _ => false,
        }
    }
}

} // verus!
