use std::mem::size_of;
use std::path::PathBuf;
use types::arguments::TypeArguments;
use types::block::Block;
use types::database::{Class, Closure, Constant, Database, Method, Module, Trait, TypeParameter,
    TypePlaceholder};
use types::kinds::{ClassKind, Inline, MethodKind, MethodSource, Symbol, Visibility};
use types::location::Location;
use types::module_name::ModuleName;
use types::type_ref::{
    ClassId, ClassInstance, ForeignType, ModuleId, TraitId, TraitInstance, TypeId, TypeParameterId,
    TypeRef,
};
use types::{
    ARRAY_ID, ARRAY_NAME, BOOL_ID, BOOL_NAME, BYTE_ARRAY_ID, BYTE_ARRAY_NAME, FIRST_USER_CLASS_ID,
    FLOAT_ID, FLOAT_NAME, INT_ID, INT_NAME, NIL_ID, NIL_NAME, STRING_ID, STRING_NAME,
};

fn assert_sync<T: Sync>() {}

fn new_module(db: &mut Database, name: &str) -> ModuleId {
    Module::allocate(db, ModuleName::new(name), PathBuf::from("foo.inko"))
}

fn new_class(db: &mut Database, name: &str) -> ClassId {
    Class::allocate(
        db,
        name.to_string(),
        ClassKind::Regular,
        Visibility::Public,
        ModuleId(0),
        Location::default(),
    )
}

fn new_parameter(db: &mut Database, name: &str) -> TypeParameterId {
    TypeParameter::allocate(db, name.to_string())
}

fn trait_instance(instance_of: TraitId) -> TraitInstance {
    TraitInstance::new(instance_of)
}

fn parameter(id: TypeParameterId) -> TypeId {
    TypeId::TypeParameter(id)
}

fn rigid(id: TypeParameterId) -> TypeId {
    TypeId::RigidTypeParameter(id)
}

fn owned(id: TypeId) -> TypeRef {
    TypeRef::Owned(id)
}

fn any(id: TypeId) -> TypeRef {
    TypeRef::Any(id)
}

#[test]
fn test_type_sizes() {
    assert_eq!(size_of::<TypeId>(), 16);
    assert_eq!(size_of::<TypeRef>(), 24);
    assert_eq!(size_of::<ForeignType>(), 8);
}

#[test]
fn test_sync() {
    assert_sync::<TypePlaceholder>();
    assert_sync::<Database>();
}

#[test]
fn test_type_parameter_alloc() {
    let mut db = Database::new();
    let id = TypeParameter::allocate(&mut db, "A".to_string());

    assert_eq!(id.0, 0);
    assert_eq!(&db.type_parameters[0].name, &"A".to_string());
}

#[test]
fn test_type_parameter_clone_for_bound() {
    let mut db = Database::new();
    let param1 = TypeParameter::allocate(&mut db, "A".to_string());

    param1.set_mutable(&mut db);
    param1.set_stack_allocated(&mut db);

    let param2 = param1.clone_for_bound(&mut db);

    assert_eq!(param1.is_mutable(&db), param2.is_mutable(&db));
    assert_eq!(param1.is_stack_allocated(&db), param2.is_stack_allocated(&db));
}

#[test]
fn test_type_parameter_new() {
    let param = TypeParameter::new("A".to_string());

    assert_eq!(&param.name, &"A");
    assert!(param.requirements.is_empty());
}

#[test]
fn test_type_parameter_id_name() {
    let mut db = Database::new();
    let id = TypeParameter::allocate(&mut db, "A".to_string());

    assert_eq!(id.name(&db), &"A");
}

#[test]
fn test_type_parameter_id_add_requirements() {
    let mut db = Database::new();
    let id = TypeParameter::allocate(&mut db, "A".to_string());
    let trait_id = Trait::allocate(
        &mut db,
        "ToString".to_string(),
        Visibility::Private,
        ModuleId(0),
        Location::default(),
    );
    let requirement = TraitInstance::new(trait_id);

    id.add_requirements(&mut db, vec![requirement]);

    assert_eq!(id.requirements(&db), vec![requirement]);
}

#[test]
fn test_type_arguments_assign() {
    let mut targs = TypeArguments::new();
    let mut db = Database::new();
    let param1 = TypeParameter::allocate(&mut db, "A".to_string());
    let param2 = TypeParameter::allocate(&mut db, "B".to_string());

    targs.assign(param1, TypeRef::Never);

    assert_eq!(targs.get(param1), Some(TypeRef::Never));
    assert_eq!(targs.get(param2), None);
    assert_eq!(targs.mapping.len(), 1);
}

#[test]
fn test_type_arguments_get_recursive() {
    let mut db = Database::new();
    let mut targs = TypeArguments::new();
    let param1 = new_parameter(&mut db, "A");
    let param2 = new_parameter(&mut db, "B");
    let param3 = new_parameter(&mut db, "C");
    let param4 = new_parameter(&mut db, "D");
    let param5 = new_parameter(&mut db, "E");
    let param6 = new_parameter(&mut db, "F");
    let param7 = new_parameter(&mut db, "G");
    let param8 = new_parameter(&mut db, "H");

    targs.assign(param1, any(parameter(param2)));
    targs.assign(param2, owned(rigid(param3)));
    targs.assign(param3, TypeRef::integer());
    targs.assign(param5, TypeRef::float());
    targs.assign(param6, owned(rigid(param6)));
    targs.assign(param7, owned(rigid(param8)));

    assert_eq!(targs.get_recursive(&db, param1), Some(TypeRef::integer()));
    assert_eq!(targs.get_recursive(&db, param2), Some(TypeRef::integer()));
    assert_eq!(targs.get_recursive(&db, param3), Some(TypeRef::integer()));
    assert_eq!(targs.get_recursive(&db, param4), None);
    assert_eq!(targs.get_recursive(&db, param5), Some(TypeRef::float()));
    assert_eq!(targs.get_recursive(&db, param6), Some(owned(rigid(param6))));

    assert_eq!(targs.get_recursive(&db, param7), Some(owned(rigid(param8))));
}

#[test]
fn test_trait_alloc() {
    let mut db = Database::new();
    let id = Trait::allocate(
        &mut db,
        "A".to_string(),
        Visibility::Private,
        ModuleId(0),
        Location::default(),
    );

    assert_eq!(id.0, 0);
    assert_eq!(&db.traits[0].name, &"A".to_string());
}

#[test]
fn test_trait_new() {
    let trait_type =
        Trait::new("A".to_string(), Visibility::Private, ModuleId(0), Location::default());

    assert_eq!(&trait_type.name, &"A");
}

#[test]
fn test_trait_id_new_type_parameter() {
    let mut db = Database::new();
    let id = Trait::allocate(
        &mut db,
        "A".to_string(),
        Visibility::Private,
        ModuleId(0),
        Location::default(),
    );
    let param = id.new_type_parameter(&mut db, "A".to_string());

    assert_eq!(id.type_parameters(&db), vec![param]);
}

#[test]
fn test_trait_instance_new() {
    let mut db = Database::new();
    let id = Trait::allocate(
        &mut db,
        "A".to_string(),
        Visibility::Private,
        ModuleId(0),
        Location::default(),
    );
    let ins = TraitInstance::new(id);
    let index = db.traits.len() as u32 - 1;

    assert_eq!(ins.instance_of.0, index);
    assert_eq!(ins.type_arguments, 0);
}

#[test]
fn test_trait_instance_generic() {
    let mut db = Database::new();
    let id = Trait::allocate(
        &mut db,
        "A".to_string(),
        Visibility::Private,
        ModuleId(0),
        Location::default(),
    );
    let ins1 = TraitInstance::generic(&mut db, id, TypeArguments::new());
    let ins2 = TraitInstance::generic(&mut db, id, TypeArguments::new());
    let index = db.traits.len() as u32 - 1;

    assert_eq!(ins1.instance_of.0, index);
    assert_eq!(ins1.type_arguments, 0);

    assert_eq!(ins2.instance_of.0, index);
    assert_eq!(ins2.type_arguments, 1);
}

#[test]
fn test_class_alloc() {
    let mut db = Database::new();
    let id = Class::allocate(
        &mut db,
        "A".to_string(),
        ClassKind::Regular,
        Visibility::Private,
        ModuleId(0),
        Location::default(),
    );

    assert_eq!(id.0, FIRST_USER_CLASS_ID);
    assert_eq!(&db.classes[FIRST_USER_CLASS_ID as usize].name, &"A".to_string());
    assert_eq!(db.classes[FIRST_USER_CLASS_ID as usize].kind, ClassKind::Regular);
}

#[test]
fn test_class_clone_for_specialization() {
    let mut db = Database::new();
    let class1 = new_class(&mut db, "A");

    class1.set_stack_allocated(&mut db);

    let class2 = class1.clone_for_specialization(&mut db);

    assert!(class2.is_stack_allocated(&db));
}

#[test]
fn test_class_new() {
    let class = Class::new(
        "A".to_string(),
        ClassKind::Async,
        Visibility::Private,
        ModuleId(0),
        Location::default(),
    );

    assert_eq!(&class.name, &"A");
    assert_eq!(class.kind, ClassKind::Async);
}

#[test]
fn test_class_id_name() {
    let mut db = Database::new();
    let id = Class::allocate(
        &mut db,
        "A".to_string(),
        ClassKind::Regular,
        Visibility::Private,
        ModuleId(0),
        Location::default(),
    );

    assert_eq!(id.name(&db), &"A");
}

#[test]
fn test_class_id_is_async() {
    let mut db = Database::new();
    let regular_class = Class::allocate(
        &mut db,
        "A".to_string(),
        ClassKind::Regular,
        Visibility::Private,
        ModuleId(0),
        Location::default(),
    );
    let async_class = Class::allocate(
        &mut db,
        "A".to_string(),
        ClassKind::Async,
        Visibility::Private,
        ModuleId(0),
        Location::default(),
    );

    assert!(!regular_class.kind(&db).is_async());
    assert!(async_class.kind(&db).is_async());
}

#[test]
fn test_class_id_new_type_parameter() {
    let mut db = Database::new();
    let id = Class::allocate(
        &mut db,
        "A".to_string(),
        ClassKind::Regular,
        Visibility::Private,
        ModuleId(0),
        Location::default(),
    );
    let param = id.new_type_parameter(&mut db, "A".to_string());

    assert_eq!(id.type_parameters(&db), vec![param]);
}

#[test]
fn test_class_instance_new() {
    let mut db = Database::new();
    let id = Class::allocate(
        &mut db,
        "A".to_string(),
        ClassKind::Regular,
        Visibility::Private,
        ModuleId(0),
        Location::default(),
    );
    let ins = ClassInstance::new(id);

    assert_eq!(ins.instance_of.0, FIRST_USER_CLASS_ID);
    assert_eq!(ins.type_arguments, 0);
}

#[test]
fn test_class_instance_generic() {
    let mut db = Database::new();
    let id = Class::allocate(
        &mut db,
        "A".to_string(),
        ClassKind::Regular,
        Visibility::Private,
        ModuleId(0),
        Location::default(),
    );
    let ins1 = ClassInstance::generic(&mut db, id, TypeArguments::new());
    let ins2 = ClassInstance::generic(&mut db, id, TypeArguments::new());

    assert_eq!(ins1.instance_of.0, FIRST_USER_CLASS_ID);
    assert_eq!(ins1.type_arguments, 0);

    assert_eq!(ins2.instance_of.0, FIRST_USER_CLASS_ID);
    assert_eq!(ins2.type_arguments, 1);
}

#[test]
fn test_method_alloc() {
    let mut db = Database::new();
    let id = Method::allocate(
        &mut db,
        ModuleId(0),
        Location::default(),
        "foo".to_string(),
        Visibility::Private,
        MethodKind::Moving,
    );

    assert_eq!(id.0, 0);
    assert_eq!(&db.methods[0].name, &"foo".to_string());
    assert_eq!(db.methods[0].kind, MethodKind::Moving);
}

#[test]
fn test_method_alloc_extern() {
    let mut db = Database::new();
    let id = Method::allocate(
        &mut db,
        ModuleId(0),
        Location::default(),
        "foo".to_string(),
        Visibility::Private,
        MethodKind::Extern,
    );

    assert_eq!(id.inline(&db), Inline::Never);
}

#[test]
fn test_method_set_never_return_type() {
    let mut db = Database::new();
    let id = Method::allocate(
        &mut db,
        ModuleId(0),
        Location::default(),
        "foo".to_string(),
        Visibility::Private,
        MethodKind::Instance,
    );

    id.set_return_type(&mut db, TypeRef::Never);
    assert_eq!(id.inline(&db), Inline::Never);
}

#[test]
fn test_method_id_named_type() {
    let mut db = Database::new();
    let method = Method::allocate(
        &mut db,
        ModuleId(0),
        Location::default(),
        "foo".to_string(),
        Visibility::Private,
        MethodKind::Instance,
    );
    let param = method.new_type_parameter(&mut db, "A".to_string());

    assert_eq!(method.named_type(&db, "A"), Some(Symbol::TypeParameter(param)));
}

#[test]
fn test_method_id_file() {
    let mut db = Database::new();
    let mod1 = new_module(&mut db, "A");
    let mod2 = new_module(&mut db, "B");
    let to_foo = Trait::allocate(
        &mut db,
        "ToFoo".to_string(),
        Visibility::Public,
        mod2,
        Location::default(),
    );

    db.modules[mod2.0 as usize].file = PathBuf::from("bar.inko");

    let m1 = Method::allocate(
        &mut db,
        mod1,
        Location::default(),
        "a".to_string(),
        Visibility::Private,
        MethodKind::Instance,
    );

    let m2 = Method::allocate(
        &mut db,
        mod1,
        Location::default(),
        "a".to_string(),
        Visibility::Private,
        MethodKind::Instance,
    );

    m2.set_source(&mut db, MethodSource::Inherited(trait_instance(to_foo), m1));

    assert_eq!(m1.source_file(&db).to_str(), Some("foo.inko"));
    assert_eq!(m2.source_file(&db).to_str(), Some("bar.inko"));
}

#[test]
fn test_module_alloc() {
    let mut db = Database::new();
    let name = ModuleName::new("foo");
    let id = Module::allocate(&mut db, name.clone(), "foo.inko".into());

    assert_eq!(id.0, 0);
    assert_eq!(&db.modules[0].name, &name);
    assert_eq!(&db.modules[0].file, &PathBuf::from("foo.inko"));
}

#[test]
fn test_module_id_file() {
    let mut db = Database::new();
    let id = Module::allocate(&mut db, ModuleName::new("foo"), PathBuf::from("test.inko"));

    assert_eq!(id.file(&db), PathBuf::from("test.inko"));
}

#[test]
fn test_module_id_symbol() {
    let mut db = Database::new();
    let id = Module::allocate(&mut db, ModuleName::new("foo"), PathBuf::from("test.inko"));

    id.new_symbol(&mut db, "A".to_string(), Symbol::Module(id));

    assert_eq!(id.symbol(&db, "A"), Some(Symbol::Module(id)));
    assert!(!db.modules[id.0 as usize].symbols.get("A").unwrap().used);
}

#[test]
fn test_module_id_use_symbol() {
    let mut db = Database::new();
    let id = Module::allocate(&mut db, ModuleName::new("foo"), PathBuf::from("test.inko"));

    id.new_symbol(&mut db, "A".to_string(), Symbol::Module(id));

    assert_eq!(id.use_symbol(&mut db, "A"), Some(Symbol::Module(id)));
    assert!(db.modules[id.0 as usize].symbols.get("A").unwrap().used);
}

#[test]
fn test_module_id_import_symbol() {
    let mut db = Database::new();
    let foo = new_module(&mut db, "foo");
    let bar = new_module(&mut db, "bar");
    let fizz = new_module(&mut db, "fizz");
    let class = new_class(&mut db, "A");
    let trait_ =
        Trait::allocate(&mut db, "B".to_string(), Visibility::Public, foo, Location::default());

    let constant = Constant::allocate(
        &mut db,
        foo,
        Location::default(),
        "C".to_string(),
        Visibility::Public,
        TypeRef::Unknown,
    );

    let method = Method::allocate(
        &mut db,
        foo,
        Location::default(),
        "D".to_string(),
        Visibility::Public,
        MethodKind::Extern,
    );

    let type_param = TypeParameter::allocate(&mut db, "E".to_string());

    class.set_module(&mut db, foo);
    foo.new_symbol(&mut db, "A".to_string(), Symbol::Class(class));
    foo.new_symbol(&mut db, "B".to_string(), Symbol::Trait(trait_));
    foo.new_symbol(&mut db, "C".to_string(), Symbol::Constant(constant));
    foo.new_symbol(&mut db, "D".to_string(), Symbol::Method(method));
    foo.new_symbol(&mut db, "E".to_string(), Symbol::TypeParameter(type_param));

    foo.new_symbol(&mut db, "fizz".to_string(), Symbol::Module(fizz));

    bar.new_symbol(&mut db, "A".to_string(), Symbol::Class(class));
    bar.new_symbol(&mut db, "B".to_string(), Symbol::Trait(trait_));
    bar.new_symbol(&mut db, "C".to_string(), Symbol::Constant(constant));
    bar.new_symbol(&mut db, "D".to_string(), Symbol::Method(method));
    bar.new_symbol(&mut db, "E".to_string(), Symbol::TypeParameter(type_param));

    assert_eq!(foo.import_symbol(&mut db, "unknown"), None);
    assert_eq!(foo.import_symbol(&mut db, "A"), Some(Symbol::Class(class)));
    assert_eq!(bar.import_symbol(&mut db, "A"), None);
    assert_eq!(foo.import_symbol(&mut db, "B"), Some(Symbol::Trait(trait_)));
    assert_eq!(bar.import_symbol(&mut db, "B"), None);
    assert_eq!(foo.import_symbol(&mut db, "C"), Some(Symbol::Constant(constant)));
    assert_eq!(bar.import_symbol(&mut db, "C"), None);
    assert_eq!(foo.import_symbol(&mut db, "D"), Some(Symbol::Method(method)));
    assert_eq!(bar.import_symbol(&mut db, "D"), None);
    assert_eq!(foo.import_symbol(&mut db, "E"), None);
    assert_eq!(bar.import_symbol(&mut db, "E"), None);
    assert_eq!(foo.import_symbol(&mut db, "fizz"), None);
}

#[test]
fn test_module_id_symbols() {
    let mut db = Database::new();
    let id = Module::allocate(&mut db, ModuleName::new("foo"), PathBuf::from("test.inko"));

    id.new_symbol(&mut db, "A".to_string(), Symbol::Module(id));

    assert_eq!(id.symbols(&db), vec![("A".to_string(), Symbol::Module(id))]);
}

#[test]
fn test_module_id_symbol_exists() {
    let mut db = Database::new();
    let id = Module::allocate(&mut db, ModuleName::new("foo"), PathBuf::from("test.inko"));

    id.new_symbol(&mut db, "A".to_string(), Symbol::Module(id));

    assert!(id.symbol_exists(&db, "A"));
    assert!(!id.symbol_exists(&db, "B"));
}

#[test]
fn test_function_closure() {
    let mut db = Database::new();
    let id = Closure::allocate(&mut db, false);

    assert_eq!(id.0, 0);
}

#[test]
fn test_type_id_named_type_with_class() {
    let mut db = Database::new();
    let array = Class::allocate(
        &mut db,
        "Array".to_string(),
        ClassKind::Regular,
        Visibility::Private,
        ModuleId(0),
        Location::default(),
    );
    let param = array.new_type_parameter(&mut db, "T".to_string());

    assert_eq!(
        TypeId::Class(array).named_type(&mut db, "T"),
        Some(Symbol::TypeParameter(param))
    );
}

#[test]
fn test_type_id_named_type_with_trait() {
    let mut db = Database::new();
    let to_array = Trait::allocate(
        &mut db,
        "ToArray".to_string(),
        Visibility::Private,
        ModuleId(0),
        Location::default(),
    );
    let param = to_array.new_type_parameter(&mut db, "T".to_string());

    assert_eq!(
        TypeId::Trait(to_array).named_type(&mut db, "T"),
        Some(Symbol::TypeParameter(param))
    );
}

#[test]
fn test_type_id_named_type_with_module() {
    let mut db = Database::new();
    let string = Class::allocate(
        &mut db,
        "String".to_string(),
        ClassKind::Regular,
        Visibility::Private,
        ModuleId(0),
        Location::default(),
    );
    let module = Module::allocate(&mut db, ModuleName::new("foo"), "foo.inko".into());

    let symbol = Symbol::Class(string);
    let type_id = TypeId::Module(module);

    module.new_symbol(&mut db, "String".to_string(), symbol);

    assert_eq!(type_id.named_type(&mut db, "String"), Some(symbol));
    assert!(type_id.named_type(&mut db, "Foo").is_none());
}

#[test]
fn test_type_id_named_type_with_class_instance() {
    let mut db = Database::new();
    let array = Class::allocate(
        &mut db,
        "Array".to_string(),
        ClassKind::Regular,
        Visibility::Private,
        ModuleId(0),
        Location::default(),
    );
    let param = array.new_type_parameter(&mut db, "T".to_string());
    let ins = TypeId::ClassInstance(ClassInstance::generic(&mut db, array, TypeArguments::new()));

    assert_eq!(ins.named_type(&mut db, "T"), Some(Symbol::TypeParameter(param)));
    assert!(ins.named_type(&mut db, "E").is_none());
}

#[test]
fn test_type_id_named_type_with_trait_instance() {
    let mut db = Database::new();
    let to_array = Trait::allocate(
        &mut db,
        "ToArray".to_string(),
        Visibility::Private,
        ModuleId(0),
        Location::default(),
    );
    let param = to_array.new_type_parameter(&mut db, "T".to_string());
    let ins =
        TypeId::TraitInstance(TraitInstance::generic(&mut db, to_array, TypeArguments::new()));

    assert_eq!(ins.named_type(&mut db, "T"), Some(Symbol::TypeParameter(param)));
    assert!(ins.named_type(&mut db, "E").is_none());
}

#[test]
fn test_type_id_named_type_with_type_parameter() {
    let mut db = Database::new();
    let param = TypeId::TypeParameter(TypeParameter::allocate(&mut db, "T".to_string()));

    assert!(param.named_type(&mut db, "T").is_none());
}

#[test]
fn test_type_id_named_type_with_function() {
    let mut db = Database::new();
    let block = TypeId::Closure(Closure::allocate(&mut db, false));

    assert!(block.named_type(&mut db, "T").is_none());
}

#[test]
fn test_database_new() {
    let db = Database::new();

    assert_eq!(&db.classes[INT_ID as usize].name, INT_NAME);
    assert_eq!(&db.classes[FLOAT_ID as usize].name, FLOAT_NAME);
    assert_eq!(&db.classes[STRING_ID as usize].name, STRING_NAME);
    assert_eq!(&db.classes[ARRAY_ID as usize].name, ARRAY_NAME);
    assert_eq!(&db.classes[BOOL_ID as usize].name, BOOL_NAME);
    assert_eq!(&db.classes[NIL_ID as usize].name, NIL_NAME);
    assert_eq!(&db.classes[BYTE_ARRAY_ID as usize].name, BYTE_ARRAY_NAME);
}

#[test]
fn test_database_module() {
    let mut db = Database::new();
    let name = ModuleName::new("foo");
    let id = Module::allocate(&mut db, name, "foo.inko".into());

    assert_eq!(db.module("foo"), id);
}

#[test]
#[should_panic]
fn test_database_invalid_module() {
    let db = Database::new();

    db.module("foo");
}

#[test]
fn test_class_id_is_builtin() {
    assert!(ClassId::integer().is_builtin());
    assert!(!ClassId::tuple8().is_builtin());
    assert!(!ClassId(42).is_builtin());
}
