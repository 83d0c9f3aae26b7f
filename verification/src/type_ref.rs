//! Entity IDs and ownership-qualified references to types.
//!
//! A `TypeId` says *what* is referred to, a `TypeRef` says *how* it is held.
//! All of these are small `Copy` values; the entities themselves live in the
//! tables of the `Database`.
use vstd::prelude::*;
use crate::{
    ARRAY_ID, BOOL_ID, BYTE_ARRAY_ID, CHECKED_INT_RESULT_ID, FLOAT_ID, INT_ID, NIL_ID, STRING_ID,
    TUPLE1_ID, TUPLE2_ID, TUPLE3_ID, TUPLE4_ID, TUPLE5_ID, TUPLE6_ID, TUPLE7_ID, TUPLE8_ID,
};

verus! {

#[derive(Debug, PartialEq, Eq, Clone, Copy, Hash, Structural)]
pub struct ModuleId(pub u32);

#[derive(Debug, PartialEq, Eq, Clone, Copy, Hash, Structural)]
pub struct TraitId(pub u32);

#[derive(Debug, PartialEq, Eq, Clone, Copy, Hash, Structural)]
pub struct ClassId(pub u32);

#[derive(Debug, PartialEq, Eq, Clone, Copy, Hash, Structural)]
pub struct MethodId(pub u32);

#[derive(Debug, PartialEq, Eq, Clone, Copy, Hash, Structural)]
pub struct TypeParameterId(pub usize);

/// An ID to a field.
#[derive(Debug, PartialEq, Eq, Clone, Copy, Hash, Structural)]
pub struct FieldId(pub usize);

#[derive(Debug, PartialEq, Eq, Clone, Copy, Hash, Structural)]
pub struct ConstructorId(pub usize);

#[derive(Debug, PartialEq, Eq, Clone, Copy, Hash, Structural)]
pub struct VariableId(pub usize);

#[derive(Debug, PartialEq, Eq, Clone, Copy, Hash, Structural)]
pub struct ConstantId(pub usize);

#[derive(Debug, PartialEq, Eq, Clone, Copy, Hash, Structural)]
pub struct ClosureId(pub usize);

/// The number of entities of each kind that a database holds. An ID is usable
/// when it is below the bound of its table.
pub struct Bounds {
    pub modules: nat,
    pub traits: nat,
    pub classes: nat,
    pub type_parameters: nat,
    pub methods: nat,
    pub fields: nat,
    pub closures: nat,
    pub variables: nat,
    pub constants: nat,
    pub type_placeholders: nat,
    pub constructors: nat,
}

impl Bounds {
    /// No table of `self` is longer than the same table of `other`.
    pub open spec fn le(self, other: Bounds) -> bool {
        &&& self.modules <= other.modules
        &&& self.traits <= other.traits
        &&& self.classes <= other.classes
        &&& self.type_parameters <= other.type_parameters
        &&& self.methods <= other.methods
        &&& self.fields <= other.fields
        &&& self.closures <= other.closures
        &&& self.variables <= other.variables
        &&& self.constants <= other.constants
        &&& self.type_placeholders <= other.type_placeholders
        &&& self.constructors <= other.constructors
    }
}

#[derive(Debug, PartialEq, Eq, Clone, Copy, Hash, Structural)]
pub enum Sign {
    Signed,
    Unsigned,
}

impl Sign {
    pub fn is_signed(self) -> (r: bool)
        ensures
            r == (self is Signed),
    {
        matches!(self, Sign::Signed)
    }
}

#[derive(Debug, PartialEq, Eq, Clone, Copy, Hash, Structural)]
pub enum ForeignType {
    Int(u32, Sign),
    Float(u32),
}

/// The ownership that a value must have before it can be assigned to a
/// placeholder. `Any` leaves the value as it is.
#[derive(Copy, Clone, Debug, PartialEq, Eq, Hash, Structural)]
pub enum Ownership {
    Any,
    Owned,
    Uni,
    Ref,
    Mut,
    UniRef,
    UniMut,
    Pointer,
}

/// A reference to a type inference placeholder.
///
/// The ownership is part of the reference, not of the placeholder: two places
/// can read one placeholder under different ownership requirements. It is
/// applied when the placeholder's value is read.
#[derive(Copy, Clone, Debug, PartialEq, Eq, Hash, Structural)]
pub struct TypePlaceholderId {
    pub id: u32,
    pub ownership: Ownership,
}

impl TypePlaceholderId {
    pub fn with_ownership(self, ownership: Ownership) -> (r: TypePlaceholderId)
        ensures
            r == (TypePlaceholderId { id: self.id, ownership }),
    {
        TypePlaceholderId { id: self.id, ownership }
    }

    pub fn as_owned(self) -> (r: TypePlaceholderId)
        ensures
            r == (TypePlaceholderId { id: self.id, ownership: Ownership::Owned }),
    {
        self.with_ownership(Ownership::Owned)
    }

    pub fn as_uni(self) -> (r: TypePlaceholderId)
        ensures
            r == (TypePlaceholderId { id: self.id, ownership: Ownership::Uni }),
    {
        self.with_ownership(Ownership::Uni)
    }

    pub fn as_ref(self) -> (r: TypePlaceholderId)
        ensures
            r == (TypePlaceholderId { id: self.id, ownership: Ownership::Ref }),
    {
        self.with_ownership(Ownership::Ref)
    }

    pub fn as_pointer(self) -> (r: TypePlaceholderId)
        ensures
            r == (TypePlaceholderId { id: self.id, ownership: Ownership::Pointer }),
    {
        self.with_ownership(Ownership::Pointer)
    }

    pub fn as_mut(self) -> (r: TypePlaceholderId)
        ensures
            r == (TypePlaceholderId { id: self.id, ownership: Ownership::Mut }),
    {
        self.with_ownership(Ownership::Mut)
    }

    pub fn as_uni_ref(self) -> (r: TypePlaceholderId)
        ensures
            r == (TypePlaceholderId { id: self.id, ownership: Ownership::UniRef }),
    {
        self.with_ownership(Ownership::UniRef)
    }

    pub fn as_uni_mut(self) -> (r: TypePlaceholderId)
        ensures
            r == (TypePlaceholderId { id: self.id, ownership: Ownership::UniMut }),
    {
        self.with_ownership(Ownership::UniMut)
    }

    pub fn has_ownership(self) -> (r: bool)
        ensures
            r == !(self.ownership is Any),
    {
        !matches!(self.ownership, Ownership::Any)
    }
}

impl TypeParameterId {
    /// The parameter as a rigid type of which the ownership is left open.
    pub fn as_rigid(self) -> (r: TypeRef)
        ensures
            r == TypeRef::Any(TypeId::RigidTypeParameter(self)),
    {
        TypeRef::Any(TypeId::RigidTypeParameter(self))
    }
}

impl ClassId {
    pub fn integer() -> (r: ClassId)
        ensures
            r == ClassId(INT_ID),
    {
        ClassId(INT_ID)
    }

    pub fn float() -> (r: ClassId)
        ensures
            r == ClassId(FLOAT_ID),
    {
        ClassId(FLOAT_ID)
    }

    pub fn string() -> (r: ClassId)
        ensures
            r == ClassId(STRING_ID),
    {
        ClassId(STRING_ID)
    }

    pub fn boolean() -> (r: ClassId)
        ensures
            r == ClassId(BOOL_ID),
    {
        ClassId(BOOL_ID)
    }

    pub fn nil() -> (r: ClassId)
        ensures
            r == ClassId(NIL_ID),
    {
        ClassId(NIL_ID)
    }

    pub fn array() -> (r: ClassId)
        ensures
            r == ClassId(ARRAY_ID),
    {
        ClassId(ARRAY_ID)
    }

    pub fn byte_array() -> (r: ClassId)
        ensures
            r == ClassId(BYTE_ARRAY_ID),
    {
        ClassId(BYTE_ARRAY_ID)
    }

    pub fn tuple1() -> (r: ClassId)
        ensures
            r == ClassId(TUPLE1_ID),
    {
        ClassId(TUPLE1_ID)
    }

    pub fn tuple2() -> (r: ClassId)
        ensures
            r == ClassId(TUPLE2_ID),
    {
        ClassId(TUPLE2_ID)
    }

    pub fn tuple3() -> (r: ClassId)
        ensures
            r == ClassId(TUPLE3_ID),
    {
        ClassId(TUPLE3_ID)
    }

    pub fn tuple4() -> (r: ClassId)
        ensures
            r == ClassId(TUPLE4_ID),
    {
        ClassId(TUPLE4_ID)
    }

    pub fn tuple5() -> (r: ClassId)
        ensures
            r == ClassId(TUPLE5_ID),
    {
        ClassId(TUPLE5_ID)
    }

    pub fn tuple6() -> (r: ClassId)
        ensures
            r == ClassId(TUPLE6_ID),
    {
        ClassId(TUPLE6_ID)
    }

    pub fn tuple7() -> (r: ClassId)
        ensures
            r == ClassId(TUPLE7_ID),
    {
        ClassId(TUPLE7_ID)
    }

    pub fn tuple8() -> (r: ClassId)
        ensures
            r == ClassId(TUPLE8_ID),
    {
        ClassId(TUPLE8_ID)
    }

    pub fn checked_int_result() -> (r: ClassId)
        ensures
            r == ClassId(CHECKED_INT_RESULT_ID),
    {
        ClassId(CHECKED_INT_RESULT_ID)
    }

    /// The built-in tuple class with `len` members, for one to eight members.
    /// The tuple classes follow each other in the table, so the class of a
    /// tuple of `len` members is `len - 1` places after that of `Tuple1`.
    pub fn tuple(len: usize) -> (r: Option<ClassId>)
        ensures
            1 <= len <= 8 ==> r == Some(ClassId((TUPLE1_ID + len - 1) as u32)),
            !(1 <= len <= 8) ==> r is None,
    {
        match len {
            1 => Some(ClassId::tuple1()),
            2 => Some(ClassId::tuple2()),
            3 => Some(ClassId::tuple3()),
            4 => Some(ClassId::tuple4()),
            5 => Some(ClassId::tuple5()),
            6 => Some(ClassId::tuple6()),
            7 => Some(ClassId::tuple7()),
            8 => Some(ClassId::tuple8()),
            _ => None,
        }
    }

    /// True for the classes up to and including `Nil`: the ones that the
    /// compiler itself gives a meaning.
    pub fn is_builtin(self) -> (r: bool)
        ensures
            r == (self.0 <= NIL_ID),
    {
        self.0 <= NIL_ID
    }

    pub fn is_numeric(self) -> (r: bool)
        ensures
            r == (self.0 == INT_ID || self.0 == FLOAT_ID),
    {
        self.0 == INT_ID || self.0 == FLOAT_ID
    }
}

/// An instance of a class, along with its type arguments in case the class is
/// generic.
#[derive(Copy, Clone, Debug, PartialEq, Eq, Hash, Structural)]
pub struct ClassInstance {
    /// The ID of the class we're an instance of.
    pub instance_of: ClassId,
    /// The index of the type arguments of this instance in the database.
    ///
    /// For a class that isn't generic the index is 0 and has no meaning. Once
    /// the database has been compacted no index has a meaning.
    pub type_arguments: u32,
}

impl ClassInstance {
    pub fn new(instance_of: ClassId) -> (r: ClassInstance)
        ensures
            r == (ClassInstance { instance_of, type_arguments: 0 }),
    {
        ClassInstance { instance_of, type_arguments: 0 }
    }

    pub fn instance_of(self) -> (r: ClassId)
        ensures
            r == self.instance_of,
    {
        self.instance_of
    }
}

/// An instance of a trait, along with its type arguments in case the trait is
/// generic.
#[derive(Copy, Clone, Debug, PartialEq, Eq, Hash, Structural)]
pub struct TraitInstance {
    /// The ID of the trait we're an instance of.
    pub instance_of: TraitId,
    /// The index of the type arguments of this instance in the database.
    ///
    /// For a trait that isn't generic the index is 0 and has no meaning. Once
    /// the database has been compacted no index has a meaning.
    pub type_arguments: u32,
}

impl TraitInstance {
    pub fn new(instance_of: TraitId) -> (r: TraitInstance)
        ensures
            r == (TraitInstance { instance_of, type_arguments: 0 }),
    {
        TraitInstance { instance_of, type_arguments: 0 }
    }

    pub fn instance_of(self) -> (r: TraitId)
        ensures
            r == self.instance_of,
    {
        self.instance_of
    }
}

/// An ID pointing to a type.
#[derive(Debug, PartialEq, Eq, Clone, Copy, Hash, Structural)]
pub enum TypeId {
    Class(ClassId),
    Trait(TraitId),
    Module(ModuleId),
    ClassInstance(ClassInstance),
    TraitInstance(TraitInstance),
    TypeParameter(TypeParameterId),
    RigidTypeParameter(TypeParameterId),
    /// A type parameter that uses atomic reference counting for aliases.
    ///
    /// Users can't write this type: it is produced when specializing type
    /// parameters that are assigned atomic types, such as processes.
    AtomicTypeParameter(TypeParameterId),
    Closure(ClosureId),
    Foreign(ForeignType),
}

impl TypeId {
    /// Every ID that `self` mentions is below the bound of its table. The index
    /// of the type arguments of an instance is not looked at.
    pub open spec fn valid(self, b: Bounds) -> bool {
        match self {
            TypeId::Class(id) => id.0 < b.classes,
            TypeId::Trait(id) => id.0 < b.traits,
            TypeId::Module(id) => id.0 < b.modules,
            TypeId::ClassInstance(ins) => ins.instance_of.0 < b.classes,
            TypeId::TraitInstance(ins) => ins.instance_of.0 < b.traits,
            TypeId::TypeParameter(id) => id.0 < b.type_parameters,
            TypeId::RigidTypeParameter(id) => id.0 < b.type_parameters,
            TypeId::AtomicTypeParameter(id) => id.0 < b.type_parameters,
            TypeId::Closure(id) => id.0 < b.closures,
            TypeId::Foreign(_) => true,
        }
    }

    /// The type parameter that `self` stands for, if it is a plain or rigid
    /// one.
    pub open spec fn parameter(self) -> Option<TypeParameterId> {
        match self {
            TypeId::TypeParameter(id) | TypeId::RigidTypeParameter(id) => Some(id),
            _ => None,
        }
    }

    pub fn use_dynamic_dispatch(self) -> (r: bool)
        ensures
            r == (self is TraitInstance || self is TypeParameter || self is RigidTypeParameter),
    {
        matches!(
            self,
            TypeId::TraitInstance(_) | TypeId::TypeParameter(_) | TypeId::RigidTypeParameter(_)
        )
    }

    /// The type that a pointer to `self` points to: type parameters leave the
    /// ownership open, everything else is owned.
    pub fn as_type_for_pointer(self) -> (r: TypeRef)
        ensures
            r == (if self.parameter() is Some {
                TypeRef::Any(self)
            } else {
                TypeRef::Owned(self)
            }),
    {
        if let TypeId::TypeParameter(_) | TypeId::RigidTypeParameter(_) = self {
            TypeRef::Any(self)
        } else {
            TypeRef::Owned(self)
        }
    }
}

/// A reference to a type.
#[derive(Debug, PartialEq, Eq, Clone, Copy, Hash, Structural)]
pub enum TypeRef {
    /// An owned value subject to move semantics.
    Owned(TypeId),
    /// An owned value subject to move semantics, and doesn't allow aliasing.
    Uni(TypeId),
    /// An immutable reference to a type.
    Ref(TypeId),
    /// An immutable, temporary and unique reference.
    UniRef(TypeId),
    /// A mutable reference to a type.
    Mut(TypeId),
    /// A mutable, temporary and unique reference.
    UniMut(TypeId),
    /// A type of which the ownership can be anything.
    ///
    /// This constructor is only used with type parameters.
    Any(TypeId),
    /// A type that signals something never happens.
    ///
    /// When used as a return type, it means a method never returns.
    Never,
    /// A value indicating a typing error.
    Error,
    /// The type is not yet known.
    ///
    /// This is the default state for a type.
    Unknown,
    /// A placeholder for a yet-to-infer type.
    Placeholder(TypePlaceholderId),
    /// A pointer to a value.
    Pointer(TypeId),
}

impl TypeRef {
    /// Every ID that `self` mentions is below the bound of its table.
    pub open spec fn valid(self, b: Bounds) -> bool {
        match self {
            TypeRef::Placeholder(id) => id.id < b.type_placeholders,
            _ => match self.inner() {
                Some(id) => id.valid(b),
                None => true,
            },
        }
    }

    /// The type that is held, for the variants that hold one.
    pub open spec fn inner(self) -> Option<TypeId> {
        match self {
            TypeRef::Owned(id)
            | TypeRef::Uni(id)
            | TypeRef::Ref(id)
            | TypeRef::UniRef(id)
            | TypeRef::Mut(id)
            | TypeRef::UniMut(id)
            | TypeRef::Any(id)
            | TypeRef::Pointer(id) => Some(id),
            _ => None,
        }
    }

    /// `self` with the type that is held replaced by `id`, for the variants
    /// that hold one.
    pub open spec fn with_inner(self, id: TypeId) -> TypeRef {
        match self {
            TypeRef::Owned(_) => TypeRef::Owned(id),
            TypeRef::Uni(_) => TypeRef::Uni(id),
            TypeRef::Ref(_) => TypeRef::Ref(id),
            TypeRef::UniRef(_) => TypeRef::UniRef(id),
            TypeRef::Mut(_) => TypeRef::Mut(id),
            TypeRef::UniMut(_) => TypeRef::UniMut(id),
            TypeRef::Any(_) => TypeRef::Any(id),
            TypeRef::Pointer(_) => TypeRef::Pointer(id),
            _ => self,
        }
    }

    /// The owned instance of a class that has no type arguments.
    pub open spec fn owned_instance(class: u32) -> TypeRef {
        TypeRef::Owned(
            TypeId::ClassInstance(ClassInstance { instance_of: ClassId(class), type_arguments: 0 }),
        )
    }

    /// The class instance that is held, whatever the ownership, but not behind
    /// a pointer.
    pub open spec fn instance(self) -> Option<ClassInstance> {
        match self {
            TypeRef::Pointer(_) | TypeRef::Any(_) => None,
            _ => match self.inner() {
                Some(TypeId::ClassInstance(ins)) => Some(ins),
                _ => None,
            },
        }
    }

    pub proof fn lemma_valid_grows(self, small: Bounds, large: Bounds)
        requires
            self.valid(small),
            small.le(large),
        ensures
            self.valid(large),
    {
    }

    pub fn nil() -> (r: TypeRef)
        ensures
            r == TypeRef::owned_instance(NIL_ID),
    {
        TypeRef::Owned(TypeId::ClassInstance(ClassInstance::new(ClassId(NIL_ID))))
    }

    pub fn boolean() -> (r: TypeRef)
        ensures
            r == TypeRef::owned_instance(BOOL_ID),
    {
        TypeRef::Owned(TypeId::ClassInstance(ClassInstance::new(ClassId(BOOL_ID))))
    }

    pub fn integer() -> (r: TypeRef)
        ensures
            r == TypeRef::owned_instance(INT_ID),
    {
        TypeRef::Owned(TypeId::ClassInstance(ClassInstance::new(ClassId::integer())))
    }

    pub fn float() -> (r: TypeRef)
        ensures
            r == TypeRef::owned_instance(FLOAT_ID),
    {
        TypeRef::Owned(TypeId::ClassInstance(ClassInstance::new(ClassId::float())))
    }

    pub fn string() -> (r: TypeRef)
        ensures
            r == TypeRef::owned_instance(STRING_ID),
    {
        TypeRef::Owned(TypeId::ClassInstance(ClassInstance::new(ClassId::string())))
    }

    pub fn byte_array() -> (r: TypeRef)
        ensures
            r == TypeRef::owned_instance(BYTE_ARRAY_ID),
    {
        TypeRef::Owned(TypeId::ClassInstance(ClassInstance::new(ClassId::byte_array())))
    }

    /// The type of an integer of `size` bits: the built-in `Int` for a signed
    /// integer of 64 bits, a foreign integer otherwise.
    pub fn int_with_sign(size: u32, sign: Sign) -> (r: TypeRef)
        ensures
            r == (if sign is Signed && size == 64 {
                TypeRef::owned_instance(INT_ID)
            } else {
                TypeRef::Owned(TypeId::Foreign(ForeignType::Int(size, sign)))
            }),
    {
        match sign {
            Sign::Signed if size == 64 => TypeRef::integer(),
            Sign::Signed => TypeRef::foreign_signed_int(size),
            _ => TypeRef::foreign_unsigned_int(size),
        }
    }

    /// The type of a float of `size` bits: the built-in `Float` for 64 bits, a
    /// foreign float otherwise.
    pub fn float_with_size(size: u32) -> (r: TypeRef)
        ensures
            r == (if size == 64 {
                TypeRef::owned_instance(FLOAT_ID)
            } else {
                TypeRef::Owned(TypeId::Foreign(ForeignType::Float(size)))
            }),
    {
        if size == 64 {
            TypeRef::float()
        } else {
            TypeRef::foreign_float(size)
        }
    }

    pub fn foreign_signed_int(size: u32) -> (r: TypeRef)
        ensures
            r == TypeRef::Owned(TypeId::Foreign(ForeignType::Int(size, Sign::Signed))),
    {
        TypeRef::Owned(TypeId::Foreign(ForeignType::Int(size, Sign::Signed)))
    }

    pub fn foreign_unsigned_int(size: u32) -> (r: TypeRef)
        ensures
            r == TypeRef::Owned(TypeId::Foreign(ForeignType::Int(size, Sign::Unsigned))),
    {
        TypeRef::Owned(TypeId::Foreign(ForeignType::Int(size, Sign::Unsigned)))
    }

    pub fn foreign_float(size: u32) -> (r: TypeRef)
        ensures
            r == TypeRef::Owned(TypeId::Foreign(ForeignType::Float(size))),
    {
        TypeRef::Owned(TypeId::Foreign(ForeignType::Float(size)))
    }

    pub fn pointer(of: TypeId) -> (r: TypeRef)
        ensures
            r == TypeRef::Pointer(of),
    {
        TypeRef::Pointer(of)
    }

    pub fn module(id: ModuleId) -> (r: TypeRef)
        ensures
            r == TypeRef::Owned(TypeId::Module(id)),
    {
        TypeRef::Owned(TypeId::Module(id))
    }

    /// Turns a reference to a plain type parameter into one to the same
    /// parameter as a rigid type, keeping the ownership. Pointers and all other
    /// types are returned as they are.
    pub fn as_rigid_type_parameter(self) -> (r: TypeRef)
        ensures
            r == (match self.inner() {
                Some(TypeId::TypeParameter(id)) if !(self is Pointer) => self.with_inner(
                    TypeId::RigidTypeParameter(id),
                ),
                _ => self,
            }),
    {
        match self {
            TypeRef::Owned(TypeId::TypeParameter(id)) => {
                TypeRef::Owned(TypeId::RigidTypeParameter(id))
            },
            TypeRef::Any(TypeId::TypeParameter(id)) => TypeRef::Any(TypeId::RigidTypeParameter(id)),
            TypeRef::Ref(TypeId::TypeParameter(id)) => TypeRef::Ref(TypeId::RigidTypeParameter(id)),
            TypeRef::Mut(TypeId::TypeParameter(id)) => TypeRef::Mut(TypeId::RigidTypeParameter(id)),
            TypeRef::Uni(TypeId::TypeParameter(id)) => TypeRef::Uni(TypeId::RigidTypeParameter(id)),
            TypeRef::UniRef(TypeId::TypeParameter(id)) => {
                TypeRef::UniRef(TypeId::RigidTypeParameter(id))
            },
            TypeRef::UniMut(TypeId::TypeParameter(id)) => {
                TypeRef::UniMut(TypeId::RigidTypeParameter(id))
            },
            _ => self,
        }
    }
}

/// A type describing the "shape" of a type, which describes its size on the
/// stack, how to create aliases, etc.
#[derive(Debug, PartialEq, Eq, Clone, Copy, Hash, Structural)]
pub enum Shape {
    /// An owned value addressed through a pointer.
    Owned,
    /// A mutable reference to a value.
    Mut,
    /// An immutable reference to a value.
    Ref,
    /// An unboxed integer, with its size in bits and its sign.
    Int(u32, Sign),
    /// An unboxed float, with its size in bits.
    Float(u32),
    /// A boolean.
    Boolean,
    /// A string using atomic reference counting.
    String,
    /// The nil singleton.
    Nil,
    /// An owned value that uses atomic reference counting.
    Atomic,
    /// A raw C pointer.
    Pointer,
    /// A shape for a specific stack allocated type.
    ///
    /// Different occurrences of one generic type use different indexes for
    /// their type arguments. The instance held here has its index replaced by
    /// the interned one, so that comparing two such shapes is reliable.
    Stack(ClassInstance),
}

impl Shape {
    pub fn integer() -> (r: Shape)
        ensures
            r == Shape::Int(64, Sign::Signed),
    {
        Shape::Int(64, Sign::Signed)
    }

    pub fn float() -> (r: Shape)
        ensures
            r == Shape::Float(64),
    {
        Shape::Float(64)
    }

    /// True for the shapes of values of the C types: every integer other than
    /// the signed one of 64 bits, and the float of 32 bits.
    pub fn is_foreign(self) -> (r: bool)
        ensures
            r == (match self {
                Shape::Int(size, sign) => !(size == 64 && sign is Signed),
                Shape::Float(size) => size == 32,
                _ => false,
            }),
    {
        match self {
            Shape::Int(64, Sign::Signed) => false,
            Shape::Int(_, Sign::Unsigned) => true,
            Shape::Int(_, Sign::Signed) => true,
            Shape::Float(32) => true,
            _ => false,
        }
    }
}

} // verus!
