//! The database: one append-only table for each kind of entity.
//!
//! Entities refer to each other by ID only. An ID is the place of an entity in
//! its table, so an ID that was handed out stays usable for as long as the
//! database lives. The one exception is the table of type arguments, which
//! `Database::compact` empties once specialization is done.
use vstd::prelude::*;
use std::path::PathBuf;
use crate::arguments::{TraitImplementation, TypeArguments, TypeBounds};
use crate::collections::id_map::IdMap;
use crate::collections::name_index::NameIndex;
use crate::collections::name_map::NameMap;
use crate::collections::seq_map::SeqMap;
use crate::intrinsic::Intrinsic;
use crate::kinds::{
    CallConvention, ClassKind, Inline, MethodKind, MethodSource, Storage, Symbol, Visibility,
};
use crate::location::Location;
use crate::module_name::ModuleName;
use crate::placeholder::chains_end;
use crate::type_ref::{
    Bounds, ClassId, ClosureId, ConstantId, ConstructorId, FieldId, MethodId, ModuleId, Shape,
    TraitId, TraitInstance, TypeParameterId, TypePlaceholderId, TypeRef, VariableId,
};
use crate::FIRST_USER_CLASS_ID;

verus! {

/// `std::path::PathBuf`, the path to a file. The library carries paths through
/// and never looks into them.
#[verifier::external_type_specification]
#[verifier::external_body]
pub struct ExPathBuf(PathBuf);

/// `PathBuf::clone`: the copy is the same path.
#[verifier::external_body]
pub(crate) fn path_clone(path: &PathBuf) -> (r: PathBuf)
    ensures
        r == *path,
{
    path.clone()
}

/// Every ID that `index` holds is below `bound`.
pub open spec fn ids_below(index: &NameIndex, bound: nat) -> bool {
    forall|i: int| 0 <= i < index.entries().len() ==> (#[trigger] index.entries()[i]).1 < bound
}

/// Every type that `arguments` assigns is valid.
pub open spec fn arguments_valid(arguments: &TypeArguments, b: Bounds) -> bool {
    forall|k: usize| #[trigger] arguments@.contains_key(k) ==> arguments@[k].valid(b)
}

/// A type inference placeholder.
///
/// A type placeholder represents a value of which the exact type isn't
/// immediately known, and is to be inferred based on how the value is used.
/// For `let vals = []` we know that `vals` is an array, but not the type of its
/// values: `vals` gets the type `Array[V]` where `V` is a placeholder. Once a
/// value is pushed into the array, `V` is assigned the type of that value.
pub struct TypePlaceholder {
    /// The value assigned to this placeholder. `Unknown` until one is assigned.
    pub value: TypeRef,
    /// The type parameter requirement that must be met before a type is
    /// compatible with this placeholder.
    pub required: Option<TypeParameterId>,
}

impl TypePlaceholder {
    pub open spec fn wf(&self, b: Bounds) -> bool {
        self.value.valid(b)
    }
}

/// A type parameter for a method or class.
pub struct TypeParameter {
    /// The name of the type parameter.
    pub name: String,
    /// The traits that must be implemented before a type can be assigned to
    /// this type parameter.
    pub requirements: Vec<TraitInstance>,
    /// If mutable references to this type parameter are allowed.
    pub mutable: bool,
    /// If types assigned to this parameter must be allocated on the stack.
    pub stack: bool,
    /// The ID of the original type parameter in case the current one is a
    /// parameter introduced through additional type bounds.
    pub original: Option<TypeParameterId>,
}

impl TypeParameter {
    pub open spec fn wf(&self, b: Bounds) -> bool {
        forall|i: int|
            0 <= i < self.requirements@.len() ==> (#[trigger] self.requirements@[i]).instance_of.0
                < b.traits
    }
}

/// A trait.
pub struct Trait {
    pub name: String,
    pub module: ModuleId,
    pub location: Location,
    pub documentation: String,
    pub implemented_by: Vec<ClassId>,
    pub visibility: Visibility,
    pub type_parameters: NameIndex,
    pub required_traits: Vec<TraitInstance>,
    pub default_methods: NameIndex,
    pub required_methods: NameIndex,
    /// The type arguments inherited from any of the required traits.
    ///
    /// Traits may require generic traits, which in turn can require other
    /// generic traits, and so on. Given
    ///
    /// ```text
    /// trait A[X] { fn foo -> X }
    /// trait B[Y]: A[Y] {}
    /// trait C[Z]: B[Z] {}
    /// ```
    ///
    /// `foo` called on a `C[Int]` returns `Int`, though `C[Int]` assigns no
    /// type to `X`. Walking the chain of requirements for each lookup is
    /// expensive, so the assignments that a trait inherits are stored with it
    /// when a requirement is added: for `C` these are `Y -> Z` and
    /// `X -> Y`.
    pub inherited_type_arguments: TypeArguments,
}

impl Trait {
    pub open spec fn wf(&self, b: Bounds) -> bool {
        &&& self.type_parameters.wf()
        &&& ids_below(&self.type_parameters, b.type_parameters)
        &&& self.default_methods.wf()
        &&& ids_below(&self.default_methods, b.methods)
        &&& self.required_methods.wf()
        &&& ids_below(&self.required_methods, b.methods)
        &&& forall|i: int|
            0 <= i < self.required_traits@.len() ==> (
            #[trigger] self.required_traits@[i]).instance_of.0 < b.traits
        &&& forall|i: int|
            0 <= i < self.implemented_by@.len() ==> (#[trigger] self.implemented_by@[i]).0
                < b.classes
        &&& self.inherited_type_arguments.wf()
        &&& arguments_valid(&self.inherited_type_arguments, b)
    }

    /// True if the trait has type parameters.
    pub open spec fn generic(&self) -> bool {
        self.type_parameters.entries().len() > 0
    }

    /// `self` and `other` differ in nothing but the classes that implement
    /// them.
    pub open spec fn same_but_implemented_by(&self, other: &Trait) -> bool {
        &&& self.name == other.name
        &&& self.module == other.module
        &&& self.location == other.location
        &&& self.documentation == other.documentation
        &&& self.visibility == other.visibility
        &&& self.type_parameters == other.type_parameters
        &&& self.required_traits == other.required_traits
        &&& self.default_methods == other.default_methods
        &&& self.required_methods == other.required_methods
        &&& self.inherited_type_arguments == other.inherited_type_arguments
    }
}

/// The type parameter that `index` holds under `name`, as a symbol.
pub open spec fn type_parameter_symbol(index: &NameIndex, name: Seq<char>) -> Option<Symbol> {
    match index.lookup(name) {
        Some(id) => Some(Symbol::TypeParameter(TypeParameterId(id))),
        None => None,
    }
}

/// A field for a class.
pub struct Field {
    pub index: usize,
    pub name: String,
    pub value_type: TypeRef,
    pub visibility: Visibility,
    pub module: ModuleId,
    pub location: Location,
    pub documentation: String,
}

impl Field {
    pub open spec fn wf(&self, b: Bounds) -> bool {
        self.value_type.valid(b)
    }
}

/// A single constructor defined in a enum class.
pub struct Constructor {
    pub id: u16,
    pub name: String,
    pub documentation: String,
    pub location: Location,
    pub arguments: Vec<TypeRef>,
}

impl Constructor {
    pub open spec fn wf(&self, b: Bounds) -> bool {
        forall|i: int| 0 <= i < self.arguments@.len() ==> (#[trigger] self.arguments@[i]).valid(b)
    }

    /// The constructor has the given attributes and no documentation.
    pub open spec fn fresh(
        &self,
        id: u16,
        name: String,
        members: Vec<TypeRef>,
        location: Location,
    ) -> bool {
        &&& self.id == id
        &&& self.name == name
        &&& self.arguments == members
        &&& self.location == location
        &&& self.documentation@.len() == 0
    }
}

/// A class.
pub struct Class {
    pub kind: ClassKind,
    pub name: String,
    pub documentation: String,
    /// A flag indicating the presence of a custom destructor, so that it can
    /// be checked for without looking up traits.
    pub destructor: bool,
    /// A type describing how instances of this type should be stored.
    pub storage: Storage,
    pub module: ModuleId,
    pub location: Location,
    pub visibility: Visibility,
    pub fields: NameIndex,
    pub type_parameters: NameIndex,
    pub methods: NameMap<MethodId>,
    /// The implemented traits, keyed by the ID of the trait.
    pub implemented_traits: IdMap<TraitImplementation>,
    pub constructors: NameIndex,
    pub specializations: SeqMap<Shape, ClassId>,
    /// The ID of the class this class is a specialization of.
    pub specialization_source: Option<ClassId>,
    /// The shapes of the type parameters of this class, in the same order as
    /// the parameters.
    pub shapes: Vec<Shape>,
}

impl Class {
    pub open spec fn wf(&self, b: Bounds) -> bool {
        &&& self.fields.wf()
        &&& ids_below(&self.fields, b.fields)
        &&& self.type_parameters.wf()
        &&& ids_below(&self.type_parameters, b.type_parameters)
        &&& self.constructors.wf()
        &&& ids_below(&self.constructors, b.constructors)
        &&& self.methods.wf()
        &&& forall|k: Seq<char>| #[trigger]
            self.methods@.contains_key(k) ==> self.methods@[k].0 < b.methods
        &&& self.implemented_traits.wf()
        &&& forall|k: usize| #[trigger]
            self.implemented_traits@.contains_key(k) ==> {
                &&& k < b.traits
                &&& self.implemented_traits@[k].instance.instance_of.0 == k
                &&& self.implemented_traits@[k].bounds.wf()
            }
        &&& self.specializations.wf()
    }

    /// True if the class has type parameters.
    pub open spec fn generic(&self) -> bool {
        self.type_parameters.entries().len() > 0
    }

    /// True if instances of the class can be mutated: C structures always,
    /// atomic values never, other values if they live on the heap.
    pub open spec fn mutable(&self) -> bool {
        self.kind is Extern || (!(self.kind is Atomic) && self.storage is Heap)
    }

    /// True if instances of the class are value types: they can be copied
    /// freely, because they live on the stack or are shared using atomic
    /// reference counting.
    pub open spec fn copied_freely(&self) -> bool {
        self.kind is Async || self.kind is Atomic || self.storage is Stack
    }
}

/// An argument defined in a method or closure.
#[derive(Clone, Debug)]
pub struct Argument {
    pub index: usize,
    pub name: String,
    pub value_type: TypeRef,
    pub variable: VariableId,
}

/// A collection of arguments: the arguments in the order of their definition,
/// and the place of each by its name.
pub struct Arguments {
    pub names: NameIndex,
    pub items: Vec<Argument>,
}

impl Arguments {
    /// Each argument stands at the place that its name is looked up to and
    /// that its own `index` gives.
    pub open spec fn linked(&self) -> bool {
        &&& self.names.wf()
        &&& self.names.entries().len() == self.items@.len()
        &&& forall|i: int|
            0 <= i < self.items@.len() ==> {
                &&& (#[trigger] self.names.entries()[i]) == (self.items@[i].name@, i as usize)
                &&& self.items@[i].index == i
            }
    }

    pub open spec fn wf(&self, b: Bounds) -> bool {
        &&& self.linked()
        &&& forall|i: int|
            0 <= i < self.items@.len() ==> (#[trigger] self.items@[i]).value_type.valid(b)
    }
}

/// A static or instance method.
pub struct Method {
    pub module: ModuleId,
    pub location: Location,
    pub name: String,
    pub documentation: String,
    pub kind: MethodKind,
    pub call_convention: CallConvention,
    pub visibility: Visibility,
    pub inline: Inline,
    pub type_parameters: NameIndex,
    pub arguments: Arguments,
    pub bounds: TypeBounds,
    pub return_type: TypeRef,
    pub source: MethodSource,
    pub main: bool,
    pub variadic: bool,
    /// The type of the receiver of the method.
    pub receiver: TypeRef,
    /// The fields this method has access to, along with their types.
    pub field_types: NameMap<(FieldId, TypeRef)>,
    /// The specializations of this method, if the method itself is generic.
    ///
    /// Each key is the combination of the receiver and method shapes, in the
    /// same order as their type parameters.
    pub specializations: SeqMap<Shape, MethodId>,
    /// The shapes of this method's type parameters, if any.
    ///
    /// For static methods this list starts with the shapes of the surrounding
    /// class' type parameters, if any. For instance methods, we only include
    /// the shapes of the method's type parameters.
    pub shapes: Vec<Shape>,
}

impl Method {
    pub open spec fn wf(&self, b: Bounds) -> bool {
        &&& self.type_parameters.wf()
        &&& ids_below(&self.type_parameters, b.type_parameters)
        &&& self.arguments.wf(b)
        &&& self.bounds.wf()
        &&& self.return_type.valid(b)
        &&& self.receiver.valid(b)
        &&& source_valid(self.source, b)
        &&& self.field_types.wf()
        &&& forall|k: Seq<char>| #[trigger]
            self.field_types@.contains_key(k) ==> {
                &&& self.field_types@[k].0.0 < b.fields
                &&& self.field_types@[k].1.valid(b)
            }
        &&& self.specializations.wf()
    }
}

/// The trait instance and the method that a method's source names exist.
pub open spec fn source_valid(source: MethodSource, b: Bounds) -> bool {
    match source {
        MethodSource::Direct => true,
        MethodSource::Implemented(ins, method) | MethodSource::Inherited(ins, method) => {
            ins.instance_of.0 < b.traits && method.0 < b.methods
        },
    }
}

/// The entity that `symbol` names exists.
pub open spec fn symbol_valid(symbol: Symbol, b: Bounds) -> bool {
    match symbol {
        Symbol::Class(id) => id.0 < b.classes,
        Symbol::Trait(id) => id.0 < b.traits,
        Symbol::Module(id) => id.0 < b.modules,
        Symbol::TypeParameter(id) => id.0 < b.type_parameters,
        Symbol::Constant(id) => id.0 < b.constants,
        Symbol::Method(id) => id.0 < b.methods,
    }
}

/// A symbol of a module, with a flag that tells if it has been used.
#[derive(Clone, Copy, Debug, PartialEq, Eq, Structural)]
pub struct ModuleSymbol {
    pub symbol: Symbol,
    pub used: bool,
}

/// A module.
pub struct Module {
    pub name: ModuleName,
    /// The source documentation of this module.
    pub documentation: String,
    /// The name of this module to use when generating method symbol names.
    ///
    /// The compiler may generate new modules with generated names. This field
    /// is used when generating symbol names for methods, such that debug info
    /// uses a human readable name instead of the generated one.
    pub method_symbol_name: ModuleName,
    /// The ID of the class that's generated for the module (containing the
    /// static methods).
    pub class: ClassId,
    /// The path to the source file of the module.
    pub file: PathBuf,
    /// The constants defined in this module.
    pub constants: Vec<ConstantId>,
    /// The symbols defined and imported into this module.
    pub symbols: NameMap<ModuleSymbol>,
    /// The external methods defined in this module.
    pub extern_methods: NameMap<MethodId>,
}

impl Module {
    pub open spec fn wf(&self, b: Bounds) -> bool {
        &&& self.class.0 < b.classes
        &&& forall|i: int|
            0 <= i < self.constants@.len() ==> (#[trigger] self.constants@[i]).0 < b.constants
        &&& self.symbols.wf()
        &&& forall|k: Seq<char>| #[trigger]
            self.symbols@.contains_key(k) ==> symbol_valid(self.symbols@[k].symbol, b)
        &&& self.extern_methods.wf()
        &&& forall|k: Seq<char>| #[trigger]
            self.extern_methods@.contains_key(k) ==> self.extern_methods@[k].0
                < b.methods
    }
}

/// A local variable.
pub struct Variable {
    /// The user-defined name of the variable.
    pub name: String,
    /// The type of the variable's value.
    pub value_type: TypeRef,
    /// A flag set to `true` if the variable can be assigned a new value.
    pub mutable: bool,
    /// The location of the variable.
    pub location: Location,
}

impl Variable {
    pub open spec fn wf(&self, b: Bounds) -> bool {
        self.value_type.valid(b)
    }
}

/// A constant.
///
/// Unlike variables, constants can't be assigned new values. They are also
/// limited to values of a select few types.
pub struct Constant {
    pub id: u16,
    pub module: ModuleId,
    pub location: Location,
    pub name: String,
    pub documentation: String,
    pub value_type: TypeRef,
    pub visibility: Visibility,
}

impl Constant {
    pub open spec fn wf(&self, b: Bounds) -> bool {
        &&& self.value_type.valid(b)
        &&& self.module.0 < b.modules
    }
}

/// An anonymous function that can optionally capture outer variables.
///
/// Unlike methods, closures don't support type parameters. Of course closures
/// _can_ refer to type parameters defined in the surrounding method or type.
pub struct Closure {
    pub moving: bool,
    /// The variables captured by this closure, and the types the variables are
    /// captured as. No pair occurs twice.
    pub captured: Vec<(VariableId, TypeRef)>,
    /// The type of `self` as captured by the closure.
    pub captured_self_type: Option<TypeRef>,
    pub arguments: Arguments,
    pub return_type: TypeRef,
}

impl Closure {
    pub open spec fn wf(&self, b: Bounds) -> bool {
        &&& forall|i: int|
            0 <= i < self.captured@.len() ==> (#[trigger] self.captured@[i]).1.valid(b)
        &&& forall|i: int, j: int|
            0 <= i < j < self.captured@.len() ==> self.captured@[i] != self.captured@[j]
        &&& match self.captured_self_type {
            Some(typ) => typ.valid(b),
            None => true,
        }
        &&& self.arguments.wf(b)
        &&& self.return_type.valid(b)
    }
}

/// The tables of a database, to say which of them an operation changes.
pub enum Table {
    Modules,
    ModuleMapping,
    Traits,
    Classes,
    TypeParameters,
    TypeArguments,
    Methods,
    Fields,
    Closures,
    Variables,
    Constants,
    Intrinsics,
    TypePlaceholders,
    Constructors,
    MainModule,
    MainMethod,
    MainClass,
}

/// A database of all types.
pub struct Database {
    pub modules: Vec<Module>,
    pub module_mapping: NameMap<ModuleId>,
    pub traits: Vec<Trait>,
    pub classes: Vec<Class>,
    pub type_parameters: Vec<TypeParameter>,
    pub type_arguments: Vec<TypeArguments>,
    pub methods: Vec<Method>,
    pub fields: Vec<Field>,
    pub closures: Vec<Closure>,
    pub variables: Vec<Variable>,
    pub constants: Vec<Constant>,
    pub intrinsics: NameMap<Intrinsic>,
    pub type_placeholders: Vec<TypePlaceholder>,
    pub constructors: Vec<Constructor>,
    /// The module that acts as the entry point of the program.
    ///
    /// For executables this will be set based on the file that is built/run.
    /// When just type-checking a project, this may be left as a None.
    pub main_module: Option<ModuleName>,
    pub main_method: Option<MethodId>,
    pub main_class: Option<ClassId>,
}

impl Database {
    /// The number of entities of each kind.
    pub open spec fn bounds(&self) -> Bounds {
        Bounds {
            modules: self.modules@.len(),
            traits: self.traits@.len(),
            classes: self.classes@.len(),
            type_parameters: self.type_parameters@.len(),
            methods: self.methods@.len(),
            fields: self.fields@.len(),
            closures: self.closures@.len(),
            variables: self.variables@.len(),
            constants: self.constants@.len(),
            type_placeholders: self.type_placeholders@.len(),
            constructors: self.constructors@.len(),
        }
    }

    /// Every table that is not in `changed` is the same in `self` and `other`.
    pub open spec fn same_but(&self, other: &Database, changed: Set<Table>) -> bool {
        &&& changed.contains(Table::Modules) || self.modules == other.modules
        &&& changed.contains(Table::ModuleMapping) || self.module_mapping == other.module_mapping
        &&& changed.contains(Table::Traits) || self.traits == other.traits
        &&& changed.contains(Table::Classes) || self.classes == other.classes
        &&& changed.contains(Table::TypeParameters) || self.type_parameters == other.type_parameters
        &&& changed.contains(Table::TypeArguments) || self.type_arguments == other.type_arguments
        &&& changed.contains(Table::Methods) || self.methods == other.methods
        &&& changed.contains(Table::Fields) || self.fields == other.fields
        &&& changed.contains(Table::Closures) || self.closures == other.closures
        &&& changed.contains(Table::Variables) || self.variables == other.variables
        &&& changed.contains(Table::Constants) || self.constants == other.constants
        &&& changed.contains(Table::Intrinsics) || self.intrinsics == other.intrinsics
        &&& changed.contains(Table::TypePlaceholders) || self.type_placeholders
            == other.type_placeholders
        &&& changed.contains(Table::Constructors) || self.constructors == other.constructors
        &&& changed.contains(Table::MainModule) || self.main_module == other.main_module
        &&& changed.contains(Table::MainMethod) || self.main_method == other.main_method
        &&& changed.contains(Table::MainClass) || self.main_class == other.main_class
    }

    pub open spec fn has_module(&self, id: ModuleId) -> bool {
        id.0 < self.modules@.len()
    }

    pub open spec fn has_trait(&self, id: TraitId) -> bool {
        id.0 < self.traits@.len()
    }

    pub open spec fn has_class(&self, id: ClassId) -> bool {
        id.0 < self.classes@.len()
    }

    pub open spec fn has_type_parameter(&self, id: TypeParameterId) -> bool {
        id.0 < self.type_parameters@.len()
    }

    pub open spec fn has_method(&self, id: MethodId) -> bool {
        id.0 < self.methods@.len()
    }

    pub open spec fn has_field(&self, id: FieldId) -> bool {
        id.0 < self.fields@.len()
    }

    pub open spec fn has_closure(&self, id: ClosureId) -> bool {
        id.0 < self.closures@.len()
    }

    pub open spec fn has_variable(&self, id: VariableId) -> bool {
        id.0 < self.variables@.len()
    }

    pub open spec fn has_constant(&self, id: ConstantId) -> bool {
        id.0 < self.constants@.len()
    }

    pub open spec fn has_constructor(&self, id: ConstructorId) -> bool {
        id.0 < self.constructors@.len()
    }

    pub open spec fn has_placeholder(&self, id: TypePlaceholderId) -> bool {
        id.id < self.type_placeholders@.len()
    }

    pub open spec fn module_at(&self, id: ModuleId) -> Module {
        self.modules@[id.0 as int]
    }

    pub open spec fn trait_(&self, id: TraitId) -> Trait {
        self.traits@[id.0 as int]
    }

    pub open spec fn class(&self, id: ClassId) -> Class {
        self.classes@[id.0 as int]
    }

    pub open spec fn type_parameter(&self, id: TypeParameterId) -> TypeParameter {
        self.type_parameters@[id.0 as int]
    }

    pub open spec fn method(&self, id: MethodId) -> Method {
        self.methods@[id.0 as int]
    }

    pub open spec fn field(&self, id: FieldId) -> Field {
        self.fields@[id.0 as int]
    }

    pub open spec fn closure(&self, id: ClosureId) -> Closure {
        self.closures@[id.0 as int]
    }

    pub open spec fn variable(&self, id: VariableId) -> Variable {
        self.variables@[id.0 as int]
    }

    pub open spec fn constant(&self, id: ConstantId) -> Constant {
        self.constants@[id.0 as int]
    }

    pub open spec fn constructor(&self, id: ConstructorId) -> Constructor {
        self.constructors@[id.0 as int]
    }

    pub open spec fn placeholder(&self, id: TypePlaceholderId) -> TypePlaceholder {
        self.type_placeholders@[id.id as int]
    }

    /// `self` is `old` with the module `id` replaced by `record`.
    pub open spec fn module_changed(&self, old: &Database, id: ModuleId, record: Module) -> bool {
        &&& self.modules@ == old.modules@.update(id.0 as int, record)
        &&& self.same_but(old, set![Table::Modules])
    }

    /// `self` is `old` with the trait `id` replaced by `record`.
    pub open spec fn trait_changed(&self, old: &Database, id: TraitId, record: Trait) -> bool {
        &&& self.traits@ == old.traits@.update(id.0 as int, record)
        &&& self.same_but(old, set![Table::Traits])
    }

    /// `self` is `old` with `record` added as the last trait.
    pub open spec fn trait_added(&self, old: &Database, record: Trait) -> bool {
        &&& self.traits@ == old.traits@.push(record)
        &&& self.same_but(old, set![Table::Traits])
    }

    /// `self` is `old` with the class `id` replaced by `record`.
    pub open spec fn class_changed(&self, old: &Database, id: ClassId, record: Class) -> bool {
        &&& self.classes@ == old.classes@.update(id.0 as int, record)
        &&& self.same_but(old, set![Table::Classes])
    }

    /// `self` is `old` with `record` added as the last class.
    pub open spec fn class_added(&self, old: &Database, record: Class) -> bool {
        &&& self.classes@ == old.classes@.push(record)
        &&& self.same_but(old, set![Table::Classes])
    }

    /// `self` is `old` with the type parameter `id` replaced by `record`.
    pub open spec fn type_parameter_changed(&self, old: &Database, id: TypeParameterId,
        record: TypeParameter) -> bool {
        &&& self.type_parameters@ == old.type_parameters@.update(id.0 as int, record)
        &&& self.same_but(old, set![Table::TypeParameters])
    }

    /// `self` is `old` with `record` added as the last type parameter.
    pub open spec fn type_parameter_added(&self, old: &Database, record: TypeParameter) -> bool {
        &&& self.type_parameters@ == old.type_parameters@.push(record)
        &&& self.same_but(old, set![Table::TypeParameters])
    }

    /// `self` is `old` with the method `id` replaced by `record`.
    pub open spec fn method_changed(&self, old: &Database, id: MethodId, record: Method) -> bool {
        &&& self.methods@ == old.methods@.update(id.0 as int, record)
        &&& self.same_but(old, set![Table::Methods])
    }

    /// `self` is `old` with `record` added as the last method.
    pub open spec fn method_added(&self, old: &Database, record: Method) -> bool {
        &&& self.methods@ == old.methods@.push(record)
        &&& self.same_but(old, set![Table::Methods])
    }

    /// `self` is `old` with the field `id` replaced by `record`.
    pub open spec fn field_changed(&self, old: &Database, id: FieldId, record: Field) -> bool {
        &&& self.fields@ == old.fields@.update(id.0 as int, record)
        &&& self.same_but(old, set![Table::Fields])
    }

    /// `self` is `old` with `record` added as the last field.
    pub open spec fn field_added(&self, old: &Database, record: Field) -> bool {
        &&& self.fields@ == old.fields@.push(record)
        &&& self.same_but(old, set![Table::Fields])
    }

    /// `self` is `old` with the closure `id` replaced by `record`.
    pub open spec fn closure_changed(&self, old: &Database, id: ClosureId,
        record: Closure) -> bool {
        &&& self.closures@ == old.closures@.update(id.0 as int, record)
        &&& self.same_but(old, set![Table::Closures])
    }

    /// `self` is `old` with `record` added as the last closure.
    pub open spec fn closure_added(&self, old: &Database, record: Closure) -> bool {
        &&& self.closures@ == old.closures@.push(record)
        &&& self.same_but(old, set![Table::Closures])
    }

    /// `self` is `old` with the variable `id` replaced by `record`.
    pub open spec fn variable_changed(&self, old: &Database, id: VariableId,
        record: Variable) -> bool {
        &&& self.variables@ == old.variables@.update(id.0 as int, record)
        &&& self.same_but(old, set![Table::Variables])
    }

    /// `self` is `old` with `record` added as the last variable.
    pub open spec fn variable_added(&self, old: &Database, record: Variable) -> bool {
        &&& self.variables@ == old.variables@.push(record)
        &&& self.same_but(old, set![Table::Variables])
    }

    /// `self` is `old` with the constant `id` replaced by `record`.
    pub open spec fn constant_changed(&self, old: &Database, id: ConstantId,
        record: Constant) -> bool {
        &&& self.constants@ == old.constants@.update(id.0 as int, record)
        &&& self.same_but(old, set![Table::Constants])
    }

    /// `self` is `old` with the constructor `id` replaced by `record`.
    pub open spec fn constructor_changed(&self, old: &Database, id: ConstructorId,
        record: Constructor) -> bool {
        &&& self.constructors@ == old.constructors@.update(id.0 as int, record)
        &&& self.same_but(old, set![Table::Constructors])
    }

    /// `self` is `old` with `record` added as the last constructor.
    pub open spec fn constructor_added(&self, old: &Database, record: Constructor) -> bool {
        &&& self.constructors@ == old.constructors@.push(record)
        &&& self.same_but(old, set![Table::Constructors])
    }

    /// `self` is `old` with `record` added as the last placeholder.
    pub open spec fn placeholder_added(&self, old: &Database, record: TypePlaceholder) -> bool {
        &&& self.type_placeholders@ == old.type_placeholders@.push(record)
        &&& self.same_but(old, set![Table::TypePlaceholders])
    }

    /// The module in which `method` is defined: its own module, but for a
    /// default method of a trait that was inherited as it is, which is defined
    /// in the module of the trait.
    pub open spec fn defining_module(&self, method: MethodId) -> ModuleId {
        match self.method(method).source {
            MethodSource::Inherited(ins, _) => self.trait_(ins.instance_of).module,
            _ => self.method(method).module,
        }
    }

    /// The symbol that `name` stands for in `module`.
    pub open spec fn symbol_of(&self, module: ModuleId, name: Seq<char>) -> Option<Symbol> {
        if self.module_at(module).symbols@.contains_key(name) {
            Some(self.module_at(module).symbols@[name].symbol)
        } else {
            None
        }
    }

    /// Every entity is well formed, and every ID that it holds is below the
    /// bound that `b` gives for its table.
    pub open spec fn wf_in(&self, b: Bounds) -> bool {
        &&& forall|i: int| 0 <= i < self.modules@.len() ==> (#[trigger] self.modules@[i]).wf(b)
        &&& self.module_mapping.wf()
        &&& forall|k: Seq<char>| #[trigger]
            self.module_mapping@.contains_key(k) ==> self.module_mapping@[k].0
                < b.modules
        &&& forall|i: int| 0 <= i < self.traits@.len() ==> (#[trigger] self.traits@[i]).wf(b)
        &&& forall|i: int| 0 <= i < self.classes@.len() ==> (#[trigger] self.classes@[i]).wf(b)
        &&& forall|i: int|
            0 <= i < self.type_parameters@.len() ==> (#[trigger] self.type_parameters@[i]).wf(b)
        &&& forall|i: int|
            0 <= i < self.type_arguments@.len() ==> {
                &&& (#[trigger] self.type_arguments@[i]).wf()
                &&& arguments_valid(&self.type_arguments@[i], b)
            }
        &&& forall|i: int| 0 <= i < self.methods@.len() ==> (#[trigger] self.methods@[i]).wf(b)
        &&& forall|i: int| 0 <= i < self.fields@.len() ==> (#[trigger] self.fields@[i]).wf(b)
        &&& forall|i: int| 0 <= i < self.closures@.len() ==> (#[trigger] self.closures@[i]).wf(b)
        &&& forall|i: int| 0 <= i < self.variables@.len() ==> (#[trigger] self.variables@[i]).wf(b)
        &&& forall|i: int| 0 <= i < self.constants@.len() ==> (#[trigger] self.constants@[i]).wf(b)
        &&& self.intrinsics.wf()
        &&& forall|i: int|
            0 <= i < self.type_placeholders@.len() ==> (#[trigger] self.type_placeholders@[i]).wf(
                b,
            )
        &&& forall|i: int|
            0 <= i < self.constructors@.len() ==> (#[trigger] self.constructors@[i]).wf(b)
    }

    /// The database is well formed: the built-in classes are there, every
    /// entity is well formed and holds IDs of existing entities only, and
    /// following placeholders that were assigned placeholders comes to an end.
    pub open spec fn wf(&self) -> bool {
        &&& self.classes@.len() >= FIRST_USER_CLASS_ID
        &&& self.methods@.len() <= u32::MAX
        &&& self.wf_in(self.bounds())
        &&& chains_end(self.type_placeholders@)
    }

    /// What is well formed stays so when tables grow.
    pub proof fn lemma_wf_in_grows(&self, small: Bounds, large: Bounds)
        requires
            self.wf_in(small),
            small.le(large),
        ensures
            self.wf_in(large),
    {
        assert forall|i: int| 0 <= i < self.type_placeholders@.len() implies (
        #[trigger] self.type_placeholders@[i]).wf(large) by {
            self.type_placeholders@[i].value.lemma_valid_grows(small, large);
        }
        assert forall|i: int| 0 <= i < self.modules@.len() implies (#[trigger] self.modules@[i]).wf(
            large,
        ) by {
            let m = self.modules@[i];
            assert(m.wf(small));
        }
        assert forall|i: int| 0 <= i < self.traits@.len() implies (#[trigger] self.traits@[i]).wf(
            large,
        ) by {
            let t = self.traits@[i];
            assert(t.wf(small));
            assert forall|k: usize| #[trigger] t.inherited_type_arguments@.contains_key(k) implies
                t.inherited_type_arguments@[k].valid(large) by {
                t.inherited_type_arguments@[k].lemma_valid_grows(small, large);
            }
        }
        assert forall|i: int| 0 <= i < self.classes@.len() implies (#[trigger] self.classes@[i]).wf(
            large,
        ) by {
            let c = self.classes@[i];
            assert(c.wf(small));
        }
        assert forall|i: int| 0 <= i < self.type_parameters@.len() implies (
        #[trigger] self.type_parameters@[i]).wf(large) by {
            assert(self.type_parameters@[i].wf(small));
        }
        assert forall|i: int| 0 <= i < self.type_arguments@.len() implies (
        #[trigger] self.type_arguments@[i]).wf() && arguments_valid(
            &self.type_arguments@[i],
            large,
        ) by {
            let t = self.type_arguments@[i];
            assert(arguments_valid(&t, small));
            assert forall|k: usize| #[trigger] t@.contains_key(k) implies t@[k].valid(large) by {
                t@[k].lemma_valid_grows(small, large);
            }
        }
        assert forall|i: int| 0 <= i < self.methods@.len() implies (#[trigger] self.methods@[i]).wf(
            large,
        ) by {
            let m = self.methods@[i];
            assert(m.wf(small));
            assert forall|j: int| 0 <= j < m.arguments.items@.len() implies (
            #[trigger] m.arguments.items@[j]).value_type.valid(large) by {
                m.arguments.items@[j].value_type.lemma_valid_grows(small, large);
            }
            m.return_type.lemma_valid_grows(small, large);
            m.receiver.lemma_valid_grows(small, large);
            assert forall|k: Seq<char>| #[trigger] m.field_types@.contains_key(k) implies
                m.field_types@[k].0.0 < large.fields && m.field_types@[k].1.valid(
                large,
            ) by {
                m.field_types@[k].1.lemma_valid_grows(small, large);
            }
        }
        assert forall|i: int| 0 <= i < self.fields@.len() implies (#[trigger] self.fields@[i]).wf(
            large,
        ) by {
            self.fields@[i].value_type.lemma_valid_grows(small, large);
        }
        assert forall|i: int| 0 <= i < self.closures@.len() implies (
        #[trigger] self.closures@[i]).wf(large) by {
            let c = self.closures@[i];
            assert(c.wf(small));
            assert forall|j: int| 0 <= j < c.arguments.items@.len() implies (
            #[trigger] c.arguments.items@[j]).value_type.valid(large) by {
                c.arguments.items@[j].value_type.lemma_valid_grows(small, large);
            }
            assert forall|j: int| 0 <= j < c.captured@.len() implies
                (#[trigger] c.captured@[j]).1.valid(
                large,
            ) by {
                c.captured@[j].1.lemma_valid_grows(small, large);
            }
            c.return_type.lemma_valid_grows(small, large);
            if let Some(typ) = c.captured_self_type {
                typ.lemma_valid_grows(small, large);
            }
        }
        assert forall|i: int| 0 <= i < self.variables@.len() implies (
        #[trigger] self.variables@[i]).wf(large) by {
            self.variables@[i].value_type.lemma_valid_grows(small, large);
        }
        assert forall|i: int| 0 <= i < self.constants@.len() implies (
        #[trigger] self.constants@[i]).wf(large) by {
            self.constants@[i].value_type.lemma_valid_grows(small, large);
        }
        assert forall|i: int| 0 <= i < self.constructors@.len() implies (
        #[trigger] self.constructors@[i]).wf(large) by {
            let c = self.constructors@[i];
            assert(c.wf(small));
            assert forall|j: int| 0 <= j < c.arguments@.len() implies (
            #[trigger] c.arguments@[j]).valid(large) by {
                c.arguments@[j].lemma_valid_grows(small, large);
            }
        }
    }
}

} // verus!
