//! The shape of a type: the key under which generic code is specialized.
use vstd::prelude::*;
use std::collections::HashMap;
use crate::database::Database;
use crate::intern::{walk_ends, Interned, InternedTypeArguments};
use crate::type_ref::{ClassInstance, ForeignType, Shape, Sign, TypeId, TypeRef};
use crate::{BOOL_ID, FLOAT_ID, INT_ID, NIL_ID, STRING_ID};

verus! {

impl ClassInstance {
    /// True if the shape of the instance names the instance itself, with the
    /// interned index of its type arguments: the class is none of `Int`,
    /// `Float`, `Bool`, `Nil` and `String`, is not atomic, lives on the stack
    /// and is generic.
    pub open spec fn interned_for_shape(self, db: &Database) -> bool {
        &&& self.instance_of.0 != INT_ID
        &&& self.instance_of.0 != FLOAT_ID
        &&& self.instance_of.0 != BOOL_ID
        &&& self.instance_of.0 != NIL_ID
        &&& self.instance_of.0 != STRING_ID
        &&& !(db.class(self.instance_of).kind is Async || db.class(self.instance_of).kind is Atomic)
        &&& db.class(self.instance_of).storage is Stack
        &&& db.class(self.instance_of).generic()
    }

    /// The shape of the instance: a fixed shape for `Int`, `Float`, `Bool`,
    /// `Nil` and `String`; `Atomic` for an instance of another atomic class;
    /// the instance itself for an instance that lives on the stack; and
    /// `default`, the shape of the kind of reference at hand, for the rest.
    pub open spec fn spec_shape(self, db: &Database, interned: Interned, default: Shape) -> Shape {
        if self.instance_of.0 == INT_ID {
            Shape::Int(64, Sign::Signed)
        } else if self.instance_of.0 == FLOAT_ID {
            Shape::Float(64)
        } else if self.instance_of.0 == BOOL_ID {
            Shape::Boolean
        } else if self.instance_of.0 == NIL_ID {
            Shape::Nil
        } else if self.instance_of.0 == STRING_ID {
            Shape::String
        } else if db.class(self.instance_of).kind is Async || db.class(self.instance_of).kind
            is Atomic {
            Shape::Atomic
        } else if db.class(self.instance_of).storage is Stack {
            Shape::Stack(
                ClassInstance {
                    instance_of: self.instance_of,
                    type_arguments: if db.class(self.instance_of).generic() {
                        interned.index_of(db, self)
                    } else {
                        0
                    },
                },
            )
        } else {
            default
        }
    }

    /// What has been interned after the shape of the instance was computed.
    pub open spec fn interned_after_shape(self, db: &Database, interned: Interned) -> Interned {
        if self.interned_for_shape(db) {
            interned.after(db, self)
        } else {
            interned
        }
    }

    /// The shape of the instance: see `spec_shape`.
    pub fn shape(self, db: &Database, interned: &mut InternedTypeArguments, default: Shape) -> (r:
        Shape)
        requires
            db.wf(),
            db.has_class(self.instance_of),
            old(interned).wf(),
            self.interned_for_shape(db) ==> walk_ends(db, self),
        ensures
            final(interned).wf(),
            r == self.spec_shape(db, old(interned)@, default),
            final(interned)@ == self.interned_after_shape(db, old(interned)@),
    {
        let id = self.instance_of.0;
        if id == INT_ID {
            Shape::integer()
        } else if id == FLOAT_ID {
            Shape::float()
        } else if id == BOOL_ID {
            Shape::Boolean
        } else if id == NIL_ID {
            Shape::Nil
        } else if id == STRING_ID {
            Shape::String
        } else if self.instance_of.kind(db).is_atomic() {
            Shape::Atomic
        } else if self.instance_of.is_stack_allocated(db) {
            let targs = if self.instance_of.is_generic(db) {
                // We need to make sure that for different references to the
                // same type (e.g. `SomeType[Int]`), the type arguments ID is
                // the same so we can reliably compare and hash the returned
                // Shape.
                interned.intern(db, self)
            } else {
                0
            };

            Shape::Stack(ClassInstance { instance_of: self.instance_of, type_arguments: targs })
        } else {
            default
        }
    }
}

impl TypeRef {
    /// True if the shape of `self`, which is no placeholder, is taken from
    /// `shapes` and must be there: `self` is a plain or rigid type parameter
    /// under any ownership, and not behind a pointer.
    pub open spec fn needs_shape(self) -> bool {
        self.qualified() && self.inner().unwrap().parameter() is Some
    }

    /// The instance of which the shape is the shape of `self`, which is no
    /// placeholder.
    pub open spec fn shaped_instance(self) -> Option<ClassInstance> {
        self.instance()
    }

    /// The shape of a borrow of a type parameter: the shape that the parameter
    /// was given, unless it was given none or that of an owned value, when it
    /// is the shape of the borrow.
    pub open spec fn borrowed_shape(given: Option<Shape>, borrow: Shape) -> Shape {
        match given {
            Some(Shape::Owned) | None => borrow,
            Some(shape) => shape,
        }
    }

    /// The shape of `self`, which is no placeholder that has a value.
    pub open spec fn shape_resolved(
        self,
        db: &Database,
        interned: Interned,
        shapes: Map<usize, Shape>,
    ) -> Shape {
        let given = |id: TypeId|
            if shapes.contains_key(id.parameter().unwrap().0) {
                Some(shapes[id.parameter().unwrap().0])
            } else {
                None
            };
        match self {
            TypeRef::Owned(id) | TypeRef::Uni(id) => match id {
                TypeId::ClassInstance(ins) => ins.spec_shape(db, interned, Shape::Owned),
                TypeId::TypeParameter(p) | TypeId::RigidTypeParameter(p) => shapes[p.0],
                TypeId::AtomicTypeParameter(_) => if self is Owned {
                    Shape::Atomic
                } else {
                    Shape::Owned
                },
                TypeId::Foreign(ForeignType::Int(size, sign)) => Shape::Int(size, sign),
                TypeId::Foreign(ForeignType::Float(size)) => Shape::Float(size),
                _ => Shape::Owned,
            },
            TypeRef::Any(id) => match id {
                TypeId::TypeParameter(p) | TypeId::RigidTypeParameter(p) => shapes[p.0],
                _ => Shape::Owned,
            },
            TypeRef::Mut(id) | TypeRef::UniMut(id) => match id {
                TypeId::ClassInstance(ins) => ins.spec_shape(db, interned, Shape::Mut),
                TypeId::TypeParameter(_) | TypeId::RigidTypeParameter(_) => TypeRef::borrowed_shape(
                    given(id),
                    Shape::Mut,
                ),
                TypeId::AtomicTypeParameter(_) => if self is Mut {
                    Shape::Atomic
                } else {
                    Shape::Mut
                },
                _ => Shape::Mut,
            },
            TypeRef::Ref(id) | TypeRef::UniRef(id) => match id {
                TypeId::ClassInstance(ins) => ins.spec_shape(db, interned, Shape::Ref),
                TypeId::TypeParameter(_) | TypeId::RigidTypeParameter(_) => TypeRef::borrowed_shape(
                    given(id),
                    Shape::Ref,
                ),
                TypeId::AtomicTypeParameter(_) => if self is Ref {
                    Shape::Atomic
                } else {
                    Shape::Ref
                },
                _ => Shape::Ref,
            },
            TypeRef::Pointer(_) => Shape::Pointer,
            _ => Shape::Owned,
        }
    }

    /// The shape of `self`: the shape of its value for a placeholder that has
    /// one, and that of an owned value for a placeholder that has none.
    pub open spec fn spec_shape(
        self,
        db: &Database,
        interned: Interned,
        shapes: Map<usize, Shape>,
    ) -> Shape {
        self.resolved(db).shape_resolved(db, interned, shapes)
    }

    /// What has been interned after the shape of `self` was computed.
    pub open spec fn interned_after_shape(self, db: &Database, interned: Interned) -> Interned {
        match self.resolved(db).shaped_instance() {
            Some(ins) => ins.interned_after_shape(db, interned),
            None => interned,
        }
    }

    /// The shape of `self` can be computed: a type parameter of which the
    /// shape is needed has one in `shapes`, and the types nested in an instance
    /// that is to be interned can be walked to an end.
    pub open spec fn shape_known(self, db: &Database, shapes: Map<usize, Shape>) -> bool {
        &&& self.resolved(db).needs_shape() ==> shapes.contains_key(
            self.resolved(db).inner().unwrap().parameter().unwrap().0,
        )
        &&& self.resolved(db).shaped_instance() matches Some(ins) ==> (ins.interned_for_shape(db)
            ==> walk_ends(db, ins))
    }

    /// The shape of `self`. The shapes of the type parameters are taken from
    /// `shapes`, by the numbers of the parameters.
    ///
    /// A type parameter must have a shape in `shapes`: a parameter without one
    /// means that shapes are asked for before all parameters were bound.
    pub fn shape(
        self,
        db: &Database,
        interned: &mut InternedTypeArguments,
        shapes: &HashMap<usize, Shape>,
    ) -> (r: Shape)
        requires
            db.wf(),
            self.valid(db.bounds()),
            old(interned).wf(),
            self.shape_known(db, shapes@),
        ensures
            final(interned).wf(),
            r == self.spec_shape(db, old(interned)@, shapes@),
            final(interned)@ == self.interned_after_shape(db, old(interned)@),
    {
        match self.resolve(db) {
            TypeRef::Owned(TypeId::ClassInstance(ins)) | TypeRef::Uni(TypeId::ClassInstance(ins)) =>
                {
                ins.shape(db, interned, Shape::Owned)
            },
            TypeRef::Mut(TypeId::ClassInstance(ins)) | TypeRef::UniMut(
                TypeId::ClassInstance(ins),
            ) => { ins.shape(db, interned, Shape::Mut) },
            TypeRef::Ref(TypeId::ClassInstance(ins)) | TypeRef::UniRef(
                TypeId::ClassInstance(ins),
            ) => { ins.shape(db, interned, Shape::Ref) },
            TypeRef::Any(TypeId::TypeParameter(id))
            | TypeRef::Any(TypeId::RigidTypeParameter(id))
            | TypeRef::Owned(TypeId::TypeParameter(id))
            | TypeRef::Owned(TypeId::RigidTypeParameter(id))
            | TypeRef::Uni(TypeId::TypeParameter(id))
            | TypeRef::Uni(TypeId::RigidTypeParameter(id)) => {
                match shapes.get(&id.0) {
                    Some(shape) => *shape,
                    None => unreached(),
                }
            },
            // These types are the result of specialization, so we can return
            // the shape directly instead of looking at `shapes`.
            TypeRef::Owned(TypeId::AtomicTypeParameter(_))
            | TypeRef::Ref(TypeId::AtomicTypeParameter(_))
            | TypeRef::Mut(TypeId::AtomicTypeParameter(_)) => Shape::Atomic,
            TypeRef::Mut(TypeId::TypeParameter(id))
            | TypeRef::Mut(TypeId::RigidTypeParameter(id))
            | TypeRef::UniMut(TypeId::TypeParameter(id))
            | TypeRef::UniMut(TypeId::RigidTypeParameter(id)) => match shapes.get(&id.0) {
                Some(Shape::Owned) | None => Shape::Mut,
                Some(shape) => *shape,
            },
            TypeRef::Ref(TypeId::TypeParameter(id))
            | TypeRef::Ref(TypeId::RigidTypeParameter(id))
            | TypeRef::UniRef(TypeId::TypeParameter(id))
            | TypeRef::UniRef(TypeId::RigidTypeParameter(id)) => match shapes.get(&id.0) {
                Some(Shape::Owned) | None => Shape::Ref,
                Some(shape) => *shape,
            },
            TypeRef::Mut(_) | TypeRef::UniMut(_) => Shape::Mut,
            TypeRef::Ref(_) | TypeRef::UniRef(_) => Shape::Ref,
            TypeRef::Owned(TypeId::Foreign(ForeignType::Int(size, sign))) | TypeRef::Uni(
                TypeId::Foreign(ForeignType::Int(size, sign)),
            ) => { Shape::Int(size, sign) },
            TypeRef::Owned(TypeId::Foreign(ForeignType::Float(size))) | TypeRef::Uni(
                TypeId::Foreign(ForeignType::Float(size)),
            ) => { Shape::Float(size) },
            TypeRef::Pointer(_) => Shape::Pointer,
            _ => Shape::Owned,
        }
    }
}

} // verus!
