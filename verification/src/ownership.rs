//! The ownership algebra: how a reference to a type is turned into another
//! kind of reference to that type.
//!
//! Each conversion is a table over the kind of reference at hand and a few
//! properties of the type that is referred to: whether it is a C structure, a
//! value type, allocated on the stack, or a type parameter that is mutable or
//! limited to the stack. This module holds the conversions of references that
//! are not placeholders; `conversion` adds the placeholders.
use vstd::prelude::*;
use crate::database::Database;
use crate::type_ref::{TypeId, TypeRef};

verus! {

impl TypeId {
    /// An instance of a C structure.
    pub open spec fn extern_instance(self, db: &Database) -> bool {
        self matches TypeId::ClassInstance(ins) && db.class(ins.instance_of).kind is Extern
    }

    /// An instance of a class of which the instances live on the stack.
    pub open spec fn stack_instance(self, db: &Database) -> bool {
        self matches TypeId::ClassInstance(ins) && db.class(ins.instance_of).storage is Stack
    }

    /// An instance of a class of which the instances can be copied freely.
    pub open spec fn value_instance(self, db: &Database) -> bool {
        self matches TypeId::ClassInstance(ins) && db.class(ins.instance_of).copied_freely()
    }

    /// A plain or rigid type parameter that is limited to types that live on
    /// the stack.
    pub open spec fn stack_parameter(self, db: &Database) -> bool {
        self.parameter() matches Some(id) && db.type_parameter(id).stack
    }

    /// A plain or rigid type parameter that allows mutable references.
    pub open spec fn mutable_parameter(self, db: &Database) -> bool {
        self.parameter() matches Some(id) && db.type_parameter(id).mutable
    }
}

impl TypeId {
    pub fn is_parameter(self) -> (r: bool)
        ensures
            r == self.parameter().is_some(),
    {
        matches!(self, TypeId::TypeParameter(_) | TypeId::RigidTypeParameter(_))
    }

    pub fn is_extern_instance(self, db: &Database) -> (r: bool)
        requires
            self.valid(db.bounds()),
        ensures
            r == self.extern_instance(db),
    {
        match self {
            TypeId::ClassInstance(ins) => ins.instance_of().kind(db).is_extern(),
            _ => false,
        }
    }

    pub fn is_stack_instance(self, db: &Database) -> (r: bool)
        requires
            self.valid(db.bounds()),
        ensures
            r == self.stack_instance(db),
    {
        match self {
            TypeId::ClassInstance(ins) => ins.instance_of().is_stack_allocated(db),
            _ => false,
        }
    }

    pub fn is_value_instance(self, db: &Database) -> (r: bool)
        requires
            self.valid(db.bounds()),
        ensures
            r == self.value_instance(db),
    {
        match self {
            TypeId::ClassInstance(ins) => ins.instance_of().is_value_type(db),
            _ => false,
        }
    }

    pub fn is_stack_parameter(self, db: &Database) -> (r: bool)
        requires
            self.valid(db.bounds()),
        ensures
            r == self.stack_parameter(db),
    {
        match self {
            TypeId::TypeParameter(id) | TypeId::RigidTypeParameter(id) => id.is_stack_allocated(db),
            _ => false,
        }
    }

    pub fn is_mutable_parameter(self, db: &Database) -> (r: bool)
        requires
            self.valid(db.bounds()),
        ensures
            r == self.mutable_parameter(db),
    {
        match self {
            TypeId::TypeParameter(id) | TypeId::RigidTypeParameter(id) => id.is_mutable(db),
            _ => false,
        }
    }
}

impl TypeRef {
    /// Neither a placeholder nor unknown.
    pub open spec fn known(self) -> bool {
        !(self is Placeholder) && !(self is Unknown)
    }

    /// True if `self`, which is no placeholder, is a value type: an instance
    /// of a class whose instances are copied freely, a module that is owned or
    /// borrowed, an owned value of a C type, or a pointer.
    pub open spec fn value_type_resolved(self, db: &Database) -> bool {
        match self {
            TypeRef::Owned(id) => id.value_instance(db) || id is Module || id is Foreign,
            TypeRef::Ref(id) | TypeRef::Mut(id) => id.value_instance(db) || id is Module,
            TypeRef::Uni(id) | TypeRef::UniRef(id) | TypeRef::UniMut(id) => id.value_instance(db),
            TypeRef::Pointer(_) => true,
            _ => false,
        }
    }

    /// `self` as an owned value: every kind of reference but a pointer becomes
    /// owned.
    pub open spec fn owned_resolved(self) -> TypeRef {
        match self {
            TypeRef::Uni(id)
            | TypeRef::Any(id)
            | TypeRef::Ref(id)
            | TypeRef::Mut(id)
            | TypeRef::UniRef(id)
            | TypeRef::UniMut(id) => TypeRef::Owned(id),
            _ => self,
        }
    }

    /// `self` as a unique value. Value types stay as they are, and so do
    /// unique borrows and pointers.
    pub open spec fn uni_resolved(self, db: &Database) -> TypeRef {
        if self.value_type_resolved(db) {
            self
        } else {
            match self {
                TypeRef::Owned(id)
                | TypeRef::Any(id)
                | TypeRef::Uni(id)
                | TypeRef::Mut(id)
                | TypeRef::Ref(id) => TypeRef::Uni(id),
                _ => self,
            }
        }
    }

    /// `self` as an immutable borrow. An owned C structure is borrowed as a
    /// pointer. What lives on the stack is copied instead of borrowed. Unique
    /// values are borrowed as unique borrows.
    pub open spec fn ref_resolved(self, db: &Database) -> TypeRef {
        match self {
            TypeRef::Owned(id) => if id.extern_instance(db) {
                TypeRef::Pointer(id)
            } else if id.stack_instance(db) || id.stack_parameter(db) {
                TypeRef::Owned(id)
            } else {
                TypeRef::Ref(id)
            },
            TypeRef::Any(id) | TypeRef::Mut(id) | TypeRef::Ref(id) => if id.stack_parameter(db) {
                TypeRef::Owned(id)
            } else {
                TypeRef::Ref(id)
            },
            TypeRef::Uni(id) | TypeRef::UniMut(id) => TypeRef::UniRef(id),
            _ => self,
        }
    }

    /// `self` as a mutable borrow, where the borrow is wanted whether or not
    /// the type allows it. An owned C structure is borrowed as a pointer.
    /// Owned value types and type parameters limited to the stack are copied.
    /// Unique values are borrowed as unique borrows.
    pub open spec fn force_mut_resolved(self, db: &Database) -> TypeRef {
        match self {
            TypeRef::Owned(id) => if id.extern_instance(db) {
                TypeRef::Pointer(id)
            } else if id.value_instance(db) || id.stack_parameter(db) {
                TypeRef::Owned(id)
            } else {
                TypeRef::Mut(id)
            },
            TypeRef::Any(id) | TypeRef::Mut(id) => if id.stack_parameter(db) {
                TypeRef::Owned(id)
            } else {
                TypeRef::Mut(id)
            },
            TypeRef::Uni(id) => if id.stack_parameter(db) {
                TypeRef::Owned(id)
            } else {
                TypeRef::UniMut(id)
            },
            _ => self,
        }
    }

    /// `self` as a mutable borrow, as far as the type allows one. A type
    /// parameter of which the ownership is open is borrowed mutably only if
    /// the parameter is mutable; borrows stay what they are.
    pub open spec fn mut_resolved(self, db: &Database) -> TypeRef {
        match self {
            TypeRef::Any(id) => if id.parameter() is None {
                self
            } else if id.stack_parameter(db) {
                TypeRef::Owned(id)
            } else if id.mutable_parameter(db) {
                TypeRef::Mut(id)
            } else {
                TypeRef::Ref(id)
            },
            TypeRef::Mut(id) => if id.stack_parameter(db) {
                TypeRef::Owned(id)
            } else {
                self
            },
            TypeRef::Owned(_) | TypeRef::Uni(_) => self.force_mut_resolved(db),
            _ => self,
        }
    }

    /// `self` as a pointer.
    pub open spec fn pointer_resolved(self) -> TypeRef {
        match self {
            TypeRef::Owned(id)
            | TypeRef::Uni(id)
            | TypeRef::Any(id)
            | TypeRef::Mut(id)
            | TypeRef::Ref(id) => TypeRef::Pointer(id),
            _ => self,
        }
    }

    /// `self` as it is exposed to a block that may only hold unique values:
    /// value types as they are, owned and mutably borrowed values as unique
    /// mutable borrows, immutably borrowed values as unique immutable borrows.
    pub open spec fn uni_borrow_resolved(self, db: &Database) -> TypeRef {
        if self.value_type_resolved(db) {
            self
        } else {
            match self {
                TypeRef::Owned(id) | TypeRef::Mut(id) => TypeRef::UniMut(id),
                TypeRef::Ref(id) => TypeRef::UniRef(id),
                _ => self,
            }
        }
    }

    /// `self` as a unique immutable borrow.
    pub open spec fn uni_ref_resolved(self) -> TypeRef {
        match self {
            TypeRef::Owned(id)
            | TypeRef::Any(id)
            | TypeRef::Uni(id)
            | TypeRef::Mut(id)
            | TypeRef::Ref(id)
            | TypeRef::UniRef(id)
            | TypeRef::UniMut(id) => TypeRef::UniRef(id),
            _ => self,
        }
    }

    /// `self` as a unique mutable borrow, as far as the kind of reference
    /// allows one: what is immutable or open becomes a unique immutable
    /// borrow.
    pub open spec fn uni_mut_resolved(self) -> TypeRef {
        match self {
            TypeRef::Owned(id)
            | TypeRef::Uni(id)
            | TypeRef::Mut(id)
            | TypeRef::UniMut(id) => TypeRef::UniMut(id),
            TypeRef::Ref(id) | TypeRef::Any(id) | TypeRef::UniRef(id) => TypeRef::UniRef(id),
            _ => self,
        }
    }

    /// `self` as a unique mutable borrow, where the borrow is wanted whatever
    /// the kind of reference. Unique borrows stay what they are.
    pub open spec fn force_uni_mut_resolved(self) -> TypeRef {
        match self {
            TypeRef::Owned(id)
            | TypeRef::Any(id)
            | TypeRef::Uni(id)
            | TypeRef::Mut(id)
            | TypeRef::Ref(id) => TypeRef::UniMut(id),
            _ => self,
        }
    }

    pub(crate) fn is_value_type_resolved(self, db: &Database) -> (r: bool)
        requires
            self.valid(db.bounds()),
        ensures
            r == self.value_type_resolved(db),
    {
        match self {
            TypeRef::Owned(TypeId::ClassInstance(ins))
            | TypeRef::Ref(TypeId::ClassInstance(ins))
            | TypeRef::Mut(TypeId::ClassInstance(ins))
            | TypeRef::UniRef(TypeId::ClassInstance(ins))
            | TypeRef::UniMut(TypeId::ClassInstance(ins))
            | TypeRef::Uni(TypeId::ClassInstance(ins)) => ins.instance_of().is_value_type(db),
            // Modules technically aren't values, but this allows certain checks
            // for value types (e.g. to see if `self` can be captured) to
            // automatically also handle modules.
            TypeRef::Owned(TypeId::Module(_))
            | TypeRef::Ref(TypeId::Module(_))
            | TypeRef::Mut(TypeId::Module(_)) => true,
            TypeRef::Owned(TypeId::Foreign(_)) => true,
            TypeRef::Pointer(_) => true,
            _ => false,
        }
    }

    pub(crate) fn as_owned_resolved(self) -> (r: TypeRef)
        ensures
            r == self.owned_resolved(),
    {
        match self {
            TypeRef::Uni(id)
            | TypeRef::Any(id)
            | TypeRef::Ref(id)
            | TypeRef::Mut(id)
            | TypeRef::UniRef(id)
            | TypeRef::UniMut(id) => TypeRef::Owned(id),
            _ => self,
        }
    }

    pub(crate) fn as_uni_resolved(self, db: &Database) -> (r: TypeRef)
        requires
            self.valid(db.bounds()),
        ensures
            r == self.uni_resolved(db),
    {
        if self.is_value_type_resolved(db) {
            return self;
        }
        match self {
            TypeRef::Owned(id)
            | TypeRef::Any(id)
            | TypeRef::Uni(id)
            | TypeRef::Mut(id)
            | TypeRef::Ref(id) => TypeRef::Uni(id),
            _ => self,
        }
    }

    pub(crate) fn as_ref_resolved(self, db: &Database) -> (r: TypeRef)
        requires
            self.valid(db.bounds()),
        ensures
            r == self.ref_resolved(db),
    {
        match self {
            TypeRef::Owned(id) => {
                if id.is_extern_instance(db) {
                    TypeRef::Pointer(id)
                } else if id.is_stack_instance(db) || id.is_stack_parameter(db) {
                    TypeRef::Owned(id)
                } else {
                    TypeRef::Ref(id)
                }
            },
            TypeRef::Any(id) | TypeRef::Mut(id) | TypeRef::Ref(id) => {
                if id.is_stack_parameter(db) {
                    TypeRef::Owned(id)
                } else {
                    TypeRef::Ref(id)
                }
            },
            TypeRef::Uni(id) | TypeRef::UniMut(id) => TypeRef::UniRef(id),
            _ => self,
        }
    }

    pub(crate) fn as_mut_resolved(self, db: &Database) -> (r: TypeRef)
        requires
            self.valid(db.bounds()),
        ensures
            r == self.mut_resolved(db),
    {
        match self {
            TypeRef::Any(id) => {
                if !id.is_parameter() {
                    self
                } else if id.is_stack_parameter(db) {
                    TypeRef::Owned(id)
                } else if id.is_mutable_parameter(db) {
                    TypeRef::Mut(id)
                } else {
                    TypeRef::Ref(id)
                }
            },
            TypeRef::Mut(id) => {
                if id.is_stack_parameter(db) {
                    TypeRef::Owned(id)
                } else {
                    self
                }
            },
            TypeRef::Owned(_) | TypeRef::Uni(_) => self.force_as_mut_resolved(db),
            _ => self,
        }
    }

    pub(crate) fn force_as_mut_resolved(self, db: &Database) -> (r: TypeRef)
        requires
            self.valid(db.bounds()),
        ensures
            r == self.force_mut_resolved(db),
    {
        match self {
            TypeRef::Owned(id) => {
                if id.is_extern_instance(db) {
                    TypeRef::Pointer(id)
                } else if id.is_value_instance(db) || id.is_stack_parameter(db) {
                    TypeRef::Owned(id)
                } else {
                    TypeRef::Mut(id)
                }
            },
            TypeRef::Any(id) | TypeRef::Mut(id) => {
                if id.is_stack_parameter(db) {
                    TypeRef::Owned(id)
                } else {
                    TypeRef::Mut(id)
                }
            },
            TypeRef::Uni(id) => {
                if id.is_stack_parameter(db) {
                    TypeRef::Owned(id)
                } else {
                    TypeRef::UniMut(id)
                }
            },
            _ => self,
        }
    }

    pub(crate) fn as_pointer_resolved(self) -> (r: TypeRef)
        ensures
            r == self.pointer_resolved(),
    {
        match self {
            TypeRef::Owned(id)
            | TypeRef::Uni(id)
            | TypeRef::Any(id)
            | TypeRef::Mut(id)
            | TypeRef::Ref(id) => TypeRef::Pointer(id),
            _ => self,
        }
    }

    pub(crate) fn as_uni_borrow_resolved(self, db: &Database) -> (r: TypeRef)
        requires
            self.valid(db.bounds()),
        ensures
            r == self.uni_borrow_resolved(db),
    {
        // Value types can always be exposed to recover blocks, as we can simply
        // copy them upon moving them around.
        if self.is_value_type_resolved(db) {
            return self;
        }
        match self {
            TypeRef::Owned(id) | TypeRef::Mut(id) => TypeRef::UniMut(id),
            TypeRef::Ref(id) => TypeRef::UniRef(id),
            _ => self,
        }
    }

    pub(crate) fn as_uni_ref_resolved(self) -> (r: TypeRef)
        ensures
            r == self.uni_ref_resolved(),
    {
        match self {
            TypeRef::Owned(id)
            | TypeRef::Any(id)
            | TypeRef::Uni(id)
            | TypeRef::Mut(id)
            | TypeRef::Ref(id)
            | TypeRef::UniRef(id)
            | TypeRef::UniMut(id) => TypeRef::UniRef(id),
            _ => self,
        }
    }

    pub(crate) fn as_uni_mut_resolved(self) -> (r: TypeRef)
        ensures
            r == self.uni_mut_resolved(),
    {
        match self {
            TypeRef::Owned(id)
            | TypeRef::Uni(id)
            | TypeRef::Mut(id)
            | TypeRef::UniMut(id) => TypeRef::UniMut(id),
            TypeRef::Ref(id) | TypeRef::Any(id) | TypeRef::UniRef(id) => TypeRef::UniRef(id),
            _ => self,
        }
    }

    pub(crate) fn force_as_uni_mut_resolved(self) -> (r: TypeRef)
        ensures
            r == self.force_uni_mut_resolved(),
    {
        match self {
            TypeRef::Owned(id)
            | TypeRef::Any(id)
            | TypeRef::Uni(id)
            | TypeRef::Mut(id)
            | TypeRef::Ref(id) => TypeRef::UniMut(id),
            _ => self,
        }
    }
}

} // verus!
