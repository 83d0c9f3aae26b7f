//! The small enumerations that classify classes, methods and symbols.
use vstd::prelude::*;
use crate::type_ref::{
    ClassId, ConstantId, MethodId, ModuleId, TraitId, TraitInstance, TypeParameterId,
    TypePlaceholderId, TypeRef,
};

verus! {

/// The requirement of a type inference placeholder.
#[derive(Copy, Clone, Eq, PartialEq, Debug, Structural)]
pub enum PlaceholderRequirement {
    Unconstrained,
    Owned(TypeParameterId),
    Any(TypeParameterId),
}

/// A type describing where something should be allocated.
#[derive(Clone, Copy, Eq, PartialEq, Debug, Structural)]
pub enum Storage {
    /// The value must be allocated on the heap.
    Heap,
    /// The value must be allocated inline/on the stack.
    Stack,
}

#[derive(Clone, Copy, Eq, PartialEq, Debug, Structural)]
pub enum ClassKind {
    /// The type is an async type, aka a process.
    Async,
    /// The type is a type that uses atomic reference counting.
    Atomic,
    /// The type is a closure.
    Closure,
    /// The type is an enumeration.
    Enum,
    /// The type is a C structure.
    Extern,
    /// The type is a module.
    Module,
    /// The type is a regular user-defined type.
    Regular,
    /// The type is a N-arity tuple.
    Tuple,
}

impl ClassKind {
    pub fn is_async(self) -> (r: bool)
        ensures
            r == (self is Async),
    {
        matches!(self, ClassKind::Async)
    }

    pub fn is_enum(self) -> (r: bool)
        ensures
            r == (self is Enum),
    {
        matches!(self, ClassKind::Enum)
    }

    pub fn is_tuple(self) -> (r: bool)
        ensures
            r == (self is Tuple),
    {
        matches!(self, ClassKind::Tuple)
    }

    pub fn is_closure(self) -> (r: bool)
        ensures
            r == (self is Closure),
    {
        matches!(self, ClassKind::Closure)
    }

    pub fn is_module(self) -> (r: bool)
        ensures
            r == (self is Module),
    {
        matches!(self, ClassKind::Module)
    }

    pub fn is_extern(self) -> (r: bool)
        ensures
            r == (self is Extern),
    {
        matches!(self, ClassKind::Extern)
    }

    pub fn allow_pattern_matching(self) -> (r: bool)
        ensures
            r == (self is Regular || self is Extern),
    {
        matches!(self, ClassKind::Regular | ClassKind::Extern)
    }

    /// True for the kinds of which the instances are shared using atomic
    /// reference counting.
    pub fn is_atomic(self) -> (r: bool)
        ensures
            r == (self is Async || self is Atomic),
    {
        matches!(self, ClassKind::Async | ClassKind::Atomic)
    }
}

#[derive(Copy, Clone, PartialEq, Eq, Debug, Structural)]
pub enum Visibility {
    /// A public symbol can be used by any other module.
    Public,
    /// A symbol only available to the module in which it's defined.
    Private,
    /// A symbol only available inside the type that defined it.
    TypePrivate,
}

impl Visibility {
    pub fn public(public: bool) -> (r: Visibility)
        ensures
            r == (if public {
                Visibility::Public
            } else {
                Visibility::Private
            }),
    {
        if public {
            Visibility::Public
        } else {
            Visibility::Private
        }
    }

    pub fn is_private(self) -> (r: bool)
        ensures
            r == !(self is Public),
    {
        self != Visibility::Public
    }
}

#[derive(Copy, Clone, PartialEq, Eq, Debug, Structural)]
pub enum MethodKind {
    /// An immutable asynchronous method.
    Async,
    /// A mutable asynchronous method.
    AsyncMutable,
    /// A static method.
    Static,
    /// A static method generated for an enum constructor.
    Constructor,
    /// A regular immutable instance method.
    Instance,
    /// An instance method that takes ownership of its receiver.
    Moving,
    /// A mutable instance method.
    Mutable,
    /// The method is a destructor.
    Destructor,
    /// The method is an external/FFI function.
    Extern,
}

impl MethodKind {
    pub fn is_static(self) -> (r: bool)
        ensures
            r == (self is Static || self is Constructor),
    {
        matches!(self, MethodKind::Static | MethodKind::Constructor)
    }

    pub fn is_constructor(self) -> (r: bool)
        ensures
            r == (self is Constructor),
    {
        matches!(self, MethodKind::Constructor)
    }
}

#[derive(Copy, Clone, PartialEq, Eq, Debug, Structural)]
pub enum MethodSource {
    /// The method is directly defined for a type.
    Direct,
    /// The method is a default method implemented through a trait.
    Implemented(TraitInstance, MethodId),
    /// The method is a default method that was inherited by not overwriting it.
    Inherited(TraitInstance, MethodId),
}

#[derive(Copy, Clone, PartialEq, Eq, Debug, Structural)]
pub enum MethodLookup {
    /// The method lookup is valid.
    Found(MethodId),
    /// The method exists, but it's private and unavailable to the caller.
    Private,
    /// The method exists, but it's an instance method and the receiver is not
    /// an instance.
    InstanceOnStatic,
    /// The method exists, but it's a static method and the receiver is an
    /// instance.
    StaticOnInstance,
    /// The method doesn't exist.
    Missing,
}

/// The call convention of a method.
#[derive(Copy, Clone, PartialEq, Eq, Debug, Structural)]
pub enum CallConvention {
    Inko,
    C,
}

impl CallConvention {
    pub fn new(c: bool) -> (r: CallConvention)
        ensures
            r == (if c {
                CallConvention::C
            } else {
                CallConvention::Inko
            }),
    {
        if c {
            CallConvention::C
        } else {
            CallConvention::Inko
        }
    }
}

#[derive(Clone, Copy, Eq, PartialEq, Debug, Structural)]
pub enum Inline {
    /// The method must never be inlined.
    Never,
    /// The need for inlining should be determined based on some set of
    /// heuristics.
    Infer,
    /// The method must be inlined into every static call site.
    Always,
}

#[derive(Clone, Copy, Debug, PartialEq, Eq, Structural)]
pub enum Receiver {
    /// The receiver is explicit (e.g. `foo.bar()`)
    Explicit,
    /// The receiver is implicitly `self` (e.g. `bar()` and there's an instance
    /// method with that name).
    Implicit,
    /// The receiver is a class to call a static method on.
    ///
    /// This is separate from an explicit receiver as we don't need to process
    /// the receiver expression in this case.
    Class,
    /// The call is an extern call, and there's no receiver.
    Extern,
}

impl Receiver {
    pub fn is_explicit(&self) -> (r: bool)
        ensures
            r == (*self is Explicit),
    {
        matches!(self, Receiver::Explicit)
    }
}

/// What the `throw` and `try` expressions of a method act upon, as derived
/// from the method's return type.
#[derive(Debug, PartialEq, Eq, Clone, Copy, Structural)]
pub enum ThrowKind {
    Unknown,
    Infer(TypePlaceholderId),
    Option(TypeRef),
    Result(TypeRef, TypeRef),
}

/// Something that a name in a module can stand for.
#[derive(Debug, PartialEq, Eq, Clone, Copy, Hash, Structural)]
pub enum Symbol {
    Class(ClassId),
    Trait(TraitId),
    Module(ModuleId),
    TypeParameter(TypeParameterId),
    Constant(ConstantId),
    Method(MethodId),
}

} // verus!
