//! The ownership algebra on references that may be placeholders.
//!
//! A placeholder that has a value is converted as its value is. A placeholder
//! that has none stays a placeholder: the ownership that was asked for is
//! noted on the reference, and is applied once the value is read.
use vstd::prelude::*;
use crate::database::Database;
use crate::placeholder::chain_finite;
use crate::type_ref::{Ownership, TypeId, TypeParameterId, TypePlaceholderId, TypeRef};
use crate::database::TypePlaceholder;

verus! {

impl TypeRef {
    /// `self` with a placeholder replaced by its value, if it has one.
    pub open spec fn resolved(self, db: &Database) -> TypeRef {
        match self {
            TypeRef::Placeholder(id) => match id.spec_value(db) {
                Some(v) => v,
                None => self,
            },
            _ => self,
        }
    }

    /// The result of a conversion: `of_value` applied to the value at hand,
    /// or, for a placeholder without a value, the placeholder with `ownership`
    /// noted on the reference.
    pub open spec fn converted(
        self,
        db: &Database,
        of_value: spec_fn(TypeRef) -> TypeRef,
        ownership: Ownership,
    ) -> TypeRef {
        match self {
            TypeRef::Placeholder(id) => match id.spec_value(db) {
                Some(v) => of_value(v),
                None => TypeRef::Placeholder(TypePlaceholderId { id: id.id, ownership }),
            },
            _ => of_value(self),
        }
    }

    pub open spec fn spec_as_owned(self, db: &Database) -> TypeRef {
        self.converted(db, |t: TypeRef| t.owned_resolved(), Ownership::Owned)
    }

    pub open spec fn spec_as_ref(self, db: &Database) -> TypeRef {
        self.converted(db, |t: TypeRef| t.ref_resolved(db), Ownership::Ref)
    }

    pub open spec fn spec_as_mut(self, db: &Database) -> TypeRef {
        self.converted(db, |t: TypeRef| t.mut_resolved(db), Ownership::Mut)
    }

    pub open spec fn spec_force_as_mut(self, db: &Database) -> TypeRef {
        self.converted(db, |t: TypeRef| t.force_mut_resolved(db), Ownership::Mut)
    }

    pub open spec fn spec_as_pointer(self, db: &Database) -> TypeRef {
        self.converted(db, |t: TypeRef| t.pointer_resolved(), Ownership::Pointer)
    }

    pub open spec fn spec_as_uni_ref(self, db: &Database) -> TypeRef {
        self.converted(db, |t: TypeRef| t.uni_ref_resolved(), Ownership::UniRef)
    }

    pub open spec fn spec_as_uni_mut(self, db: &Database) -> TypeRef {
        self.converted(db, |t: TypeRef| t.uni_mut_resolved(), Ownership::UniMut)
    }

    pub open spec fn spec_force_as_uni_mut(self, db: &Database) -> TypeRef {
        self.converted(db, |t: TypeRef| t.force_uni_mut_resolved(), Ownership::UniMut)
    }

    /// A placeholder of which the value is a value type stays the placeholder
    /// that it is.
    pub open spec fn spec_as_uni(self, db: &Database) -> TypeRef {
        if self.spec_is_value_type(db) {
            self
        } else {
            self.converted(db, |t: TypeRef| t.uni_resolved(db), Ownership::Uni)
        }
    }

    /// A placeholder of which the value is a value type stays the placeholder
    /// that it is.
    pub open spec fn spec_as_uni_borrow(self, db: &Database) -> TypeRef {
        if self.spec_is_value_type(db) {
            self
        } else {
            self.converted(db, |t: TypeRef| t.uni_borrow_resolved(db), Ownership::UniMut)
        }
    }

    /// True if `self` is a value type. A placeholder without a value is none.
    pub open spec fn spec_is_value_type(self, db: &Database) -> bool {
        self.resolved(db).value_type_resolved(db)
    }

    /// `self` cast to the ownership of `other`: a value type becomes unique if
    /// `other` is, a pointer if `other` is a borrow and `self` an owned or
    /// unique C structure, and owned otherwise; another type becomes a borrow
    /// of the kind that `other` is, and stays as it is if `other` is none.
    pub open spec fn spec_cast_according_to(self, db: &Database, other: TypeRef) -> TypeRef {
        if self.spec_is_value_type(db) {
            if other.resolved(db) is Uni {
                self.spec_as_uni(db)
            } else if other.spec_is_ref_or_mut(db) && self.spec_is_extern_instance(db) {
                self.spec_as_pointer(db)
            } else {
                self.spec_as_owned(db)
            }
        } else if other.resolved(db) is Ref {
            self.spec_as_ref(db)
        } else if other.spec_is_mut(db) {
            self.spec_as_mut(db)
        } else {
            self
        }
    }

    /// True if `self` is a mutable borrow. A placeholder counts as one if its
    /// value is an immutable borrow.
    pub open spec fn spec_is_mut(self, db: &Database) -> bool {
        self is Mut || (self is Placeholder && self.resolved(db) is Ref)
    }

    pub open spec fn spec_is_ref_or_mut(self, db: &Database) -> bool {
        self.resolved(db) is Ref || self.resolved(db) is Mut
    }

    /// True if `self` is stated in so many words to be an owned or unique
    /// instance of a C structure. Placeholders are not looked into.
    pub open spec fn spec_is_extern_instance(self, db: &Database) -> bool {
        &&& self is Owned || self is Uni
        &&& self.inner() matches Some(id)
        &&& id.extern_instance(db)
    }

    /// The value of a placeholder is known and valid, and so is every other
    /// valid reference.
    pub proof fn lemma_resolved(self, db: &Database)
        requires
            db.wf(),
            self.valid(db.bounds()),
        ensures
            self.resolved(db).valid(db.bounds()),
            self.resolved(db) is Placeholder ==> self.resolved(db) == self,
            self.resolved(db).resolved(db) == self.resolved(db) || self.resolved(db) is Placeholder,
    {
        if let TypeRef::Placeholder(id) = self {
            id.lemma_value_known(db);
        }
    }

    /// `self` with a placeholder replaced by its value, if it has one.
    pub fn resolve(self, db: &Database) -> (r: TypeRef)
        requires
            db.wf(),
            self.valid(db.bounds()),
        ensures
            r == self.resolved(db),
            r.valid(db.bounds()),
            r is Placeholder ==> r == self,
    {
        match self {
            TypeRef::Placeholder(id) => match id.value(db) {
                Some(v) => v,
                None => self,
            },
            _ => self,
        }
    }

    /// Adds a placeholder to the database and returns a reference to it.
    pub fn placeholder(db: &mut Database, required: Option<TypeParameterId>) -> (r: TypeRef)
        requires
            old(db).type_placeholders@.len() < u32::MAX,
        ensures
            r == TypeRef::Placeholder(
                TypePlaceholderId {
                    id: old(db).type_placeholders@.len() as u32,
                    ownership: Ownership::Any,
                },
            ),
            final(db).placeholder_added(
                old(db),
                TypePlaceholder { value: TypeRef::Unknown, required },
            ),
            old(db).wf() ==> final(db).wf(),
            old(db).wf() ==> r.resolved(final(db)) == r,
    {
        TypeRef::Placeholder(TypePlaceholder::allocate(db, required))
    }

    /// The type that is referred to. A placeholder refers to what its value
    /// refers to. Where nothing is referred to, the reference at hand is given
    /// back: `Never`, `Error`, `Unknown`, or a placeholder without a value.
    pub fn type_id(self, db: &Database) -> (r: Result<TypeId, TypeRef>)
        requires
            db.wf(),
            self.valid(db.bounds()),
        ensures
            r == self.spec_type_id(db),
            r matches Ok(id) ==> id.valid(db.bounds()),
    {
        let t = self.resolve(db);
        match t {
            TypeRef::Pointer(id)
            | TypeRef::Owned(id)
            | TypeRef::Uni(id)
            | TypeRef::Ref(id)
            | TypeRef::Mut(id)
            | TypeRef::UniRef(id)
            | TypeRef::UniMut(id)
            | TypeRef::Any(id) => Ok(id),
            _ => Err(t),
        }
    }

    pub open spec fn spec_type_id(self, db: &Database) -> Result<TypeId, TypeRef> {
        match self.resolved(db).inner() {
            Some(id) => Ok(id),
            None => Err(self.resolved(db)),
        }
    }

    /// Returns `true` if `self` is a value type.
    ///
    /// Value types are types that use atomic reference counting (processes and
    /// strings), those allocated on the stack (Int, pointers, inline types,
    /// etc), or non-values (e.g. modules).
    pub fn is_value_type(self, db: &Database) -> (r: bool)
        requires
            db.wf(),
            self.valid(db.bounds()),
        ensures
            r == self.spec_is_value_type(db),
    {
        self.resolve(db).is_value_type_resolved(db)
    }

    pub fn as_owned(self, db: &Database) -> (r: TypeRef)
        requires
            db.wf(),
            self.valid(db.bounds()),
        ensures
            r == self.spec_as_owned(db),
            r.valid(db.bounds()),
    {
        match self {
            TypeRef::Placeholder(id) => {
                if let Some(v) = id.value(db) {
                    v.as_owned_resolved()
                } else {
                    TypeRef::Placeholder(id.as_owned())
                }
            },
            _ => self.as_owned_resolved(),
        }
    }

    pub fn as_ref(self, db: &Database) -> (r: TypeRef)
        requires
            db.wf(),
            self.valid(db.bounds()),
        ensures
            r == self.spec_as_ref(db),
            r.valid(db.bounds()),
    {
        match self {
            TypeRef::Placeholder(id) => {
                if let Some(v) = id.value(db) {
                    v.as_ref_resolved(db)
                } else {
                    TypeRef::Placeholder(id.as_ref())
                }
            },
            _ => self.as_ref_resolved(db),
        }
    }

    pub fn as_mut(self, db: &Database) -> (r: TypeRef)
        requires
            db.wf(),
            self.valid(db.bounds()),
        ensures
            r == self.spec_as_mut(db),
            r.valid(db.bounds()),
    {
        match self {
            TypeRef::Placeholder(id) => {
                if let Some(v) = id.value(db) {
                    v.as_mut_resolved(db)
                } else {
                    TypeRef::Placeholder(id.as_mut())
                }
            },
            _ => self.as_mut_resolved(db),
        }
    }

    pub fn force_as_mut(self, db: &Database) -> (r: TypeRef)
        requires
            db.wf(),
            self.valid(db.bounds()),
        ensures
            r == self.spec_force_as_mut(db),
            r.valid(db.bounds()),
    {
        match self {
            TypeRef::Placeholder(id) => {
                if let Some(v) = id.value(db) {
                    v.force_as_mut_resolved(db)
                } else {
                    TypeRef::Placeholder(id.as_mut())
                }
            },
            _ => self.force_as_mut_resolved(db),
        }
    }

    pub fn as_pointer(self, db: &Database) -> (r: TypeRef)
        requires
            db.wf(),
            self.valid(db.bounds()),
        ensures
            r == self.spec_as_pointer(db),
            r.valid(db.bounds()),
    {
        match self {
            TypeRef::Placeholder(id) => {
                if let Some(v) = id.value(db) {
                    v.as_pointer_resolved()
                } else {
                    TypeRef::Placeholder(id.as_pointer())
                }
            },
            _ => self.as_pointer_resolved(),
        }
    }

    pub fn as_uni_borrow(self, db: &Database) -> (r: TypeRef)
        requires
            db.wf(),
            self.valid(db.bounds()),
        ensures
            r == self.spec_as_uni_borrow(db),
            r.valid(db.bounds()),
    {
        // Value types can always be exposed to recover blocks, as we can simply
        // copy them upon moving them around.
        if self.is_value_type(db) {
            return self;
        }
        match self {
            TypeRef::Placeholder(id) => {
                if let Some(v) = id.value(db) {
                    v.as_uni_borrow_resolved(db)
                } else {
                    TypeRef::Placeholder(id.as_uni_mut())
                }
            },
            _ => self.as_uni_borrow_resolved(db),
        }
    }

    pub fn as_uni_ref(self, db: &Database) -> (r: TypeRef)
        requires
            db.wf(),
            self.valid(db.bounds()),
        ensures
            r == self.spec_as_uni_ref(db),
            r.valid(db.bounds()),
    {
        match self {
            TypeRef::Placeholder(id) => {
                if let Some(v) = id.value(db) {
                    v.as_uni_ref_resolved()
                } else {
                    TypeRef::Placeholder(id.as_uni_ref())
                }
            },
            _ => self.as_uni_ref_resolved(),
        }
    }

    pub fn as_uni_mut(self, db: &Database) -> (r: TypeRef)
        requires
            db.wf(),
            self.valid(db.bounds()),
        ensures
            r == self.spec_as_uni_mut(db),
            r.valid(db.bounds()),
    {
        match self {
            TypeRef::Placeholder(id) => {
                if let Some(v) = id.value(db) {
                    v.as_uni_mut_resolved()
                } else {
                    TypeRef::Placeholder(id.as_uni_mut())
                }
            },
            _ => self.as_uni_mut_resolved(),
        }
    }

    pub fn force_as_uni_mut(self, db: &Database) -> (r: TypeRef)
        requires
            db.wf(),
            self.valid(db.bounds()),
        ensures
            r == self.spec_force_as_uni_mut(db),
            r.valid(db.bounds()),
    {
        match self {
            TypeRef::Placeholder(id) => {
                if let Some(v) = id.value(db) {
                    v.force_as_uni_mut_resolved()
                } else {
                    TypeRef::Placeholder(id.as_uni_mut())
                }
            },
            _ => self.force_as_uni_mut_resolved(),
        }
    }

    pub fn as_uni(self, db: &Database) -> (r: TypeRef)
        requires
            db.wf(),
            self.valid(db.bounds()),
        ensures
            r == self.spec_as_uni(db),
            r.valid(db.bounds()),
    {
        if self.is_value_type(db) {
            return self;
        }
        match self {
            TypeRef::Placeholder(id) => {
                if let Some(v) = id.value(db) {
                    v.as_uni_resolved(db)
                } else {
                    TypeRef::Placeholder(id.as_uni())
                }
            },
            _ => self.as_uni_resolved(db),
        }
    }

    pub fn is_uni(self, db: &Database) -> (r: bool)
        requires
            db.wf(),
            self.valid(db.bounds()),
        ensures
            r == (self.resolved(db) is Uni),
    {
        matches!(self.resolve(db), TypeRef::Uni(_))
    }

    pub fn is_ref(self, db: &Database) -> (r: bool)
        requires
            db.wf(),
            self.valid(db.bounds()),
        ensures
            r == (self.resolved(db) is Ref),
    {
        matches!(self.resolve(db), TypeRef::Ref(_))
    }

    pub fn is_mut(self, db: &Database) -> (r: bool)
        requires
            db.wf(),
            self.valid(db.bounds()),
        ensures
            r == self.spec_is_mut(db),
    {
        match self {
            TypeRef::Mut(_) => true,
            TypeRef::Placeholder(id) => match id.value(db) {
                Some(v) => matches!(v, TypeRef::Ref(_)),
                None => false,
            },
            _ => false,
        }
    }

    pub fn is_ref_or_mut(self, db: &Database) -> (r: bool)
        requires
            db.wf(),
            self.valid(db.bounds()),
        ensures
            r == self.spec_is_ref_or_mut(db),
    {
        matches!(self.resolve(db), TypeRef::Mut(_) | TypeRef::Ref(_))
    }

    /// True if `self` is stated in so many words to be an owned or unique
    /// instance of a C structure. Placeholders are not looked into.
    pub fn is_extern_instance(self, db: &Database) -> (r: bool)
        requires
            self.valid(db.bounds()),
        ensures
            r == self.spec_is_extern_instance(db),
    {
        match self {
            TypeRef::Owned(TypeId::ClassInstance(ins)) | TypeRef::Uni(TypeId::ClassInstance(ins)) =>
                {
                ins.instance_of().kind(db).is_extern()
            },
            _ => false,
        }
    }

    pub fn cast_according_to(self, db: &Database, other: TypeRef) -> (r: TypeRef)
        requires
            db.wf(),
            self.valid(db.bounds()),
            other.valid(db.bounds()),
        ensures
            r == self.spec_cast_according_to(db, other),
            r.valid(db.bounds()),
    {
        if self.is_value_type(db) {
            return if other.is_uni(db) {
                self.as_uni(db)
            } else if other.is_ref_or_mut(db) && self.is_extern_instance(db) {
                self.as_pointer(db)
            } else {
                self.as_owned(db)
            };
        }
        if other.is_ref(db) {
            self.as_ref(db)
        } else if other.is_mut(db) {
            self.as_mut(db)
        } else {
            self
        }
    }

    /// A value type as an owned value; any other type as it is.
    pub fn value_type_as_owned(self, db: &Database) -> (r: TypeRef)
        requires
            db.wf(),
            self.valid(db.bounds()),
        ensures
            r == (if self.spec_is_value_type(db) {
                self.spec_as_owned(db)
            } else {
                self
            }),
            r.valid(db.bounds()),
    {
        if self.is_value_type(db) {
            self.as_owned(db)
        } else {
            self
        }
    }
}

} // verus!
