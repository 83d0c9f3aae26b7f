use std::collections::HashMap;
use types::arguments::TypeArguments;
use types::database::{Class, Closure, Database, Method, Module, Trait, TypeParameter,
    TypePlaceholder, Variable};
use types::intern::InternedTypeArguments;
use types::kinds::{ClassKind, MethodKind, Visibility};
use types::location::Location;
use types::module_name::ModuleName;
use types::type_ref::{
    ClassId, ClassInstance, ClosureId, ForeignType, ModuleId, Ownership, Shape, Sign, TraitId,
    TraitInstance, TypeId, TypeParameterId, TypePlaceholderId, TypeRef,
};

fn new_class_of_kind(db: &mut Database, name: &str, kind: ClassKind) -> ClassId {
    Class::allocate(db, name.to_string(), kind, Visibility::Public, ModuleId(0),
        Location::default())
}

fn new_class(db: &mut Database, name: &str) -> ClassId {
    new_class_of_kind(db, name, ClassKind::Regular)
}

fn new_async_class(db: &mut Database, name: &str) -> ClassId {
    new_class_of_kind(db, name, ClassKind::Async)
}

fn new_enum_class(db: &mut Database, name: &str) -> ClassId {
    new_class_of_kind(db, name, ClassKind::Enum)
}

fn new_extern_class(db: &mut Database, name: &str) -> ClassId {
    new_class_of_kind(db, name, ClassKind::Extern)
}

fn new_trait(db: &mut Database, name: &str) -> TraitId {
    Trait::allocate(db, name.to_string(), Visibility::Public, ModuleId(0), Location::default())
}

fn new_parameter(db: &mut Database, name: &str) -> TypeParameterId {
    TypeParameter::allocate(db, name.to_string())
}

fn instance(class: ClassId) -> TypeId {
    TypeId::ClassInstance(ClassInstance::new(class))
}

fn generic_instance_id(db: &mut Database, class: ClassId, arguments: Vec<TypeRef>) -> TypeId {
    let mut args = TypeArguments::new();

    for (param, arg) in class.type_parameters(db).into_iter().zip(arguments.into_iter()) {
        args.assign(param, arg);
    }

    TypeId::ClassInstance(ClassInstance::generic(db, class, args))
}

fn generic_trait_instance(
    db: &mut Database,
    instance_of: TraitId,
    arguments: Vec<TypeRef>,
) -> TraitInstance {
    let mut args = TypeArguments::new();

    for (param, arg) in instance_of.type_parameters(db).into_iter().zip(arguments.into_iter()) {
        args.assign(param, arg);
    }

    TraitInstance::generic(db, instance_of, args)
}

fn parameter(id: TypeParameterId) -> TypeId {
    TypeId::TypeParameter(id)
}

fn rigid(id: TypeParameterId) -> TypeId {
    TypeId::RigidTypeParameter(id)
}

fn closure(id: ClosureId) -> TypeId {
    TypeId::Closure(id)
}

fn owned(id: TypeId) -> TypeRef {
    TypeRef::Owned(id)
}

fn uni(id: TypeId) -> TypeRef {
    TypeRef::Uni(id)
}

fn immutable(id: TypeId) -> TypeRef {
    TypeRef::Ref(id)
}

fn mutable(id: TypeId) -> TypeRef {
    TypeRef::Mut(id)
}

fn immutable_uni(id: TypeId) -> TypeRef {
    TypeRef::UniRef(id)
}

fn mutable_uni(id: TypeId) -> TypeRef {
    TypeRef::UniMut(id)
}

fn any(id: TypeId) -> TypeRef {
    TypeRef::Any(id)
}

fn placeholder(id: TypePlaceholderId) -> TypeRef {
    TypeRef::Placeholder(id)
}

fn pointer(id: TypeId) -> TypeRef {
    TypeRef::Pointer(id)
}

#[test]
fn test_type_placeholder_id_assign() {
    let mut db = Database::new();
    let param = TypeParameter::allocate(&mut db, "T".to_string());
    let p1 = TypePlaceholder::allocate(&mut db, Some(param));
    let p2 = TypePlaceholder::allocate(&mut db, Some(param));

    p1.assign(&mut db, TypeRef::integer());
    p2.assign(&mut db, TypeRef::Placeholder(p2));

    assert_eq!(p1.value(&db), Some(TypeRef::integer()));
    assert!(p2.value(&db).is_none());
}

#[test]
fn test_type_placeholder_id_assign_with_ownership() {
    let mut db = Database::new();
    let mut var = TypePlaceholder::allocate(&mut db, None);
    let thing = new_class(&mut db, "Thing");

    var.ownership = Ownership::Owned;
    var.assign(&mut db, immutable(instance(thing)));
    assert_eq!(var.value(&db), Some(owned(instance(thing))));

    var.ownership = Ownership::Ref;
    var.assign(&mut db, owned(instance(thing)));
    assert_eq!(var.value(&db), Some(immutable(instance(thing))));

    var.ownership = Ownership::Mut;
    var.assign(&mut db, owned(instance(thing)));
    assert_eq!(var.value(&db), Some(mutable(instance(thing))));

    var.ownership = Ownership::Uni;
    var.assign(&mut db, owned(instance(thing)));
    assert_eq!(var.value(&db), Some(uni(instance(thing))));

    var.ownership = Ownership::UniRef;
    var.assign(&mut db, owned(instance(thing)));
    assert_eq!(var.value(&db), Some(immutable_uni(instance(thing))));

    var.ownership = Ownership::UniMut;
    var.assign(&mut db, owned(instance(thing)));
    assert_eq!(var.value(&db), Some(mutable_uni(instance(thing))));
}

#[test]
fn test_type_placeholder_id_resolve() {
    let mut db = Database::new();
    let var1 = TypePlaceholder::allocate(&mut db, None);
    let var2 = TypePlaceholder::allocate(&mut db, None);
    let var3 = TypePlaceholder::allocate(&mut db, None);

    var1.assign(&mut db, TypeRef::integer());
    var2.assign(&mut db, TypeRef::Placeholder(var1));
    var3.assign(&mut db, TypeRef::Placeholder(var2));

    assert_eq!(var1.value(&db), Some(TypeRef::integer()));
    assert_eq!(var2.value(&db), Some(TypeRef::integer()));
    assert_eq!(var3.value(&db), Some(TypeRef::integer()));
}

#[test]
fn test_type_ref_allow_as_ref() {
    let mut db = Database::new();
    let int = ClassId::integer();
    let var = TypePlaceholder::allocate(&mut db, None);
    let param = new_parameter(&mut db, "A");

    var.assign(&mut db, owned(instance(int)));

    assert!(owned(instance(int)).allow_as_ref(&db));
    assert!(mutable(instance(int)).allow_as_ref(&db));
    assert!(immutable(instance(int)).allow_as_ref(&db));
    assert!(placeholder(var).allow_as_ref(&db));
    assert!(owned(rigid(param)).allow_as_ref(&db));
    assert!(uni(instance(int)).allow_as_ref(&db));
}

#[test]
fn test_type_ref_as_ref() {
    let mut db = Database::new();
    let int = ClassId::integer();
    let ext = new_extern_class(&mut db, "Extern");
    let p1 = new_parameter(&mut db, "A");
    let p2 = new_parameter(&mut db, "A");

    p2.set_stack_allocated(&mut db);

    assert_eq!(owned(instance(int)).as_ref(&db), owned(instance(int)));
    assert_eq!(uni(instance(int)).as_ref(&db), TypeRef::UniRef(instance(int)));
    assert_eq!(owned(rigid(p1)).as_ref(&db), immutable(rigid(p1)));
    assert_eq!(owned(instance(ext)).as_ref(&db), pointer(instance(ext)));

    assert_eq!(owned(parameter(p2)).as_ref(&db), owned(parameter(p2)));
    assert_eq!(immutable(parameter(p2)).as_ref(&db), owned(parameter(p2)));
    assert_eq!(mutable(parameter(p2)).as_ref(&db), owned(parameter(p2)));
    assert_eq!(owned(rigid(p2)).as_ref(&db), owned(rigid(p2)));
}

#[test]
fn test_type_ref_as_mut() {
    let mut db = Database::new();
    let int = ClassId::integer();
    let ext = new_extern_class(&mut db, "Extern");
    let p1 = new_parameter(&mut db, "A");
    let p2 = new_parameter(&mut db, "A");
    let p3 = new_parameter(&mut db, "A");

    p2.set_mutable(&mut db);
    p3.set_stack_allocated(&mut db);

    assert_eq!(owned(instance(int)).as_mut(&db), owned(instance(int)));
    assert_eq!(uni(instance(int)).as_mut(&db), TypeRef::UniMut(instance(int)));

    assert_eq!(any(rigid(p1)).as_mut(&db), immutable(rigid(p1)));
    assert_eq!(owned(parameter(p1)).as_mut(&db), mutable(parameter(p1)));

    assert_eq!(owned(rigid(p1)).as_mut(&db), mutable(rigid(p1)));
    assert_eq!(owned(rigid(p2)).as_mut(&db), mutable(rigid(p2)));
    assert_eq!(owned(parameter(p2)).as_mut(&db), mutable(parameter(p2)));
    assert_eq!(owned(instance(ext)).as_mut(&db), pointer(instance(ext)));

    assert_eq!(owned(parameter(p3)).as_mut(&db), owned(parameter(p3)));
    assert_eq!(mutable(parameter(p3)).as_mut(&db), owned(parameter(p3)));
    assert_eq!(uni(parameter(p3)).as_mut(&db), owned(parameter(p3)));
    assert_eq!(owned(rigid(p3)).as_mut(&db), owned(rigid(p3)));
}

#[test]
fn test_type_ref_as_pointer() {
    let mut db = Database::new();
    let int = ClassId::integer();
    let ext = new_extern_class(&mut db, "Extern");
    let param = new_parameter(&mut db, "A");
    let var = TypePlaceholder::allocate(&mut db, None);

    assert_eq!(owned(instance(int)).as_pointer(&db), pointer(instance(int)));
    assert_eq!(uni(instance(int)).as_pointer(&db), pointer(instance(int)));
    assert_eq!(owned(rigid(param)).as_pointer(&db), pointer(rigid(param)));
    assert_eq!(owned(instance(ext)).as_pointer(&db), pointer(instance(ext)));
    assert_eq!(placeholder(var).as_pointer(&db), placeholder(var.as_pointer()));
}

#[test]
fn test_type_ref_is_sendable_with_closure() {
    let mut db = Database::new();
    let func1 = Closure::allocate(&mut db, false);
    let func2 = Closure::allocate(&mut db, false);
    let thing = new_class(&mut db, "Thing");
    let var_type = immutable(instance(thing));
    let loc = Location::default();
    let var = Variable::allocate(&mut db, "thing".to_string(), var_type, false, loc);

    func2.add_capture(&mut db, var, var_type);

    assert!(owned(closure(func1)).is_sendable(&db));
    assert!(!owned(closure(func2)).is_sendable(&db));
}

#[test]
fn test_type_ref_as_owned_with_placeholder() {
    let mut db = Database::new();
    let var = TypePlaceholder::allocate(&mut db, None);

    assert_eq!(placeholder(var).as_owned(&db), placeholder(var.as_owned()),);
}

#[test]
fn test_type_ref_as_uni_with_placeholder() {
    let mut db = Database::new();
    let var = TypePlaceholder::allocate(&mut db, None);

    assert_eq!(placeholder(var).as_uni(&db), placeholder(var.as_uni()));
}

#[test]
fn test_type_ref_as_ref_with_placeholder() {
    let mut db = Database::new();
    let var = TypePlaceholder::allocate(&mut db, None);

    assert_eq!(placeholder(var).as_ref(&db), placeholder(var.as_ref()));
}

#[test]
fn test_type_ref_as_mut_with_placeholder() {
    let mut db = Database::new();
    let var = TypePlaceholder::allocate(&mut db, None);

    assert_eq!(placeholder(var).as_mut(&db), placeholder(var.as_mut()));
}

#[test]
fn test_type_ref_as_uni_ref_with_placeholder() {
    let mut db = Database::new();
    let var = TypePlaceholder::allocate(&mut db, None);

    assert_eq!(placeholder(var).as_uni_ref(&db), placeholder(var.as_uni_ref()));
}

#[test]
fn test_type_ref_force_as_mut() {
    let mut db = Database::new();
    let p1 = new_parameter(&mut db, "A");
    let p2 = new_parameter(&mut db, "A");

    p2.set_stack_allocated(&mut db);

    assert_eq!(owned(parameter(p1)).force_as_mut(&db), mutable(parameter(p1)));
    assert_eq!(owned(rigid(p1)).force_as_mut(&db), mutable(rigid(p1)));

    assert_eq!(owned(parameter(p2)).force_as_mut(&db), owned(parameter(p2)));
    assert_eq!(mutable(parameter(p2)).force_as_mut(&db), owned(parameter(p2)));
    assert_eq!(uni(parameter(p2)).force_as_mut(&db), owned(parameter(p2)));
    assert_eq!(owned(rigid(p2)).force_as_mut(&db), owned(rigid(p2)));
}

#[test]
fn test_type_ref_force_as_uni_mut_with_placeholder() {
    let mut db = Database::new();
    let var = TypePlaceholder::allocate(&mut db, None);

    assert_eq!(placeholder(var).force_as_uni_mut(&db), placeholder(var.as_uni_mut()));
}

#[test]
fn test_type_ref_as_uni_reference() {
    let mut db = Database::new();
    let foo = new_class(&mut db, "Foo");
    let int = ClassId::integer();

    assert_eq!(owned(instance(foo)).as_uni_borrow(&db), TypeRef::UniMut(instance(foo)));
    assert_eq!(owned(instance(int)).as_uni_borrow(&db), TypeRef::Owned(instance(int)));
    assert_eq!(immutable(instance(foo)).as_uni_borrow(&db), TypeRef::UniRef(instance(foo)));
    assert_eq!(mutable(instance(foo)).as_uni_borrow(&db), TypeRef::UniMut(instance(foo)));
    assert_eq!(uni(instance(foo)).as_uni_borrow(&db), uni(instance(foo)));
}

#[test]
fn test_type_ref_as_uni_ref() {
    let mut db = Database::new();
    let foo = new_class(&mut db, "Foo");

    assert_eq!(owned(instance(foo)).as_uni_ref(&db), immutable_uni(instance(foo)));
    assert_eq!(mutable(instance(foo)).as_uni_ref(&db), immutable_uni(instance(foo)));
    assert_eq!(uni(instance(foo)).as_uni_ref(&db), immutable_uni(instance(foo)));
    assert_eq!(immutable_uni(instance(foo)).as_uni_ref(&db), immutable_uni(instance(foo)));
    assert_eq!(mutable_uni(instance(foo)).as_uni_ref(&db), immutable_uni(instance(foo)));
}

#[test]
fn test_type_ref_as_uni_mut() {
    let mut db = Database::new();
    let foo = new_class(&mut db, "Foo");

    assert_eq!(owned(instance(foo)).as_uni_mut(&db), mutable_uni(instance(foo)));
    assert_eq!(any(instance(foo)).as_uni_mut(&db), immutable_uni(instance(foo)));
    assert_eq!(mutable(instance(foo)).as_uni_mut(&db), mutable_uni(instance(foo)));
    assert_eq!(uni(instance(foo)).as_uni_mut(&db), mutable_uni(instance(foo)));
    assert_eq!(immutable_uni(instance(foo)).as_uni_mut(&db), immutable_uni(instance(foo)));
    assert_eq!(mutable_uni(instance(foo)).as_uni_mut(&db), mutable_uni(instance(foo)));
}

#[test]
fn test_type_ref_allow_mutating() {
    let mut db = Database::new();
    let param1 = new_parameter(&mut db, "T");
    let param2 = new_parameter(&mut db, "T");
    let proc = new_async_class(&mut db, "X");

    param2.set_mutable(&mut db);

    assert!(uni(instance(ClassId::string())).allow_mutating(&db));
    assert!(immutable(instance(ClassId::string())).allow_mutating(&db));
    assert!(mutable(parameter(param1)).allow_mutating(&db));
    assert!(mutable(rigid(param1)).allow_mutating(&db));
    assert!(owned(parameter(param1)).allow_mutating(&db));
    assert!(owned(rigid(param1)).allow_mutating(&db));
    assert!(any(parameter(param2)).allow_mutating(&db));
    assert!(any(rigid(param2)).allow_mutating(&db));
    assert!(uni(parameter(param2)).allow_mutating(&db));
    assert!(uni(rigid(param2)).allow_mutating(&db));
    assert!(owned(instance(proc)).allow_mutating(&db));
    assert!(mutable(instance(proc)).allow_mutating(&db));

    assert!(!immutable(instance(proc)).allow_mutating(&db));
    assert!(!immutable(parameter(param1)).allow_mutating(&db));
    assert!(!owned(instance(ClassId::string())).allow_mutating(&db));
    assert!(!any(parameter(param1)).allow_mutating(&db));
    assert!(!any(rigid(param1)).allow_mutating(&db));
    assert!(!TypeRef::integer().allow_mutating(&db));
}

#[test]
fn test_type_ref_allow_moving() {
    let mut db = Database::new();
    let heap = new_class(&mut db, "A");
    let stack = new_class(&mut db, "B");

    stack.set_stack_allocated(&mut db);

    assert!(owned(instance(heap)).allow_moving(&db));
    assert!(uni(instance(heap)).allow_moving(&db));
    assert!(owned(instance(stack)).allow_moving(&db));
    assert!(uni(instance(stack)).allow_moving(&db));
    assert!(immutable_uni(instance(stack)).allow_moving(&db));
    assert!(mutable_uni(instance(stack)).allow_moving(&db));
    assert!(!mutable(instance(heap)).allow_moving(&db));
    assert!(!immutable(instance(heap)).allow_moving(&db));
}

#[test]
fn test_module_id_has_same_root_namespace() {
    let mut db = Database::new();
    let foo_mod = Module::allocate(&mut db, ModuleName::new("std.foo"), "foo.inko".into());

    let bar_mod = Module::allocate(&mut db, ModuleName::new("std.bar"), "bar.inko".into());

    let bla_mod = Module::allocate(&mut db, ModuleName::new("bla"), "bla.inko".into());

    let test_mod = Module::allocate(&mut db, ModuleName::new("test_bla"), "test_bla.inko".into());

    assert!(foo_mod.has_same_root_namespace(&db, bar_mod));
    assert!(!foo_mod.has_same_root_namespace(&db, bla_mod));
    assert!(bla_mod.has_same_root_namespace(&db, test_mod));
    assert!(!test_mod.has_same_root_namespace(&db, bla_mod));
}

#[test]
fn test_type_ref_type_arguments_with_type_parameter() {
    let mut db = Database::new();
    let trait1 = new_trait(&mut db, "ToA");
    let trait2 = new_trait(&mut db, "ToB");
    let trait3 = new_trait(&mut db, "ToC");
    let param = new_parameter(&mut db, "T");
    let trait1_param = trait1.new_type_parameter(&mut db, "A".to_string());
    let trait2_param = trait2.new_type_parameter(&mut db, "B".to_string());
    let trait3_param = trait3.new_type_parameter(&mut db, "C".to_string());
    let trait1_ins = generic_trait_instance(&mut db, trait1, vec![TypeRef::integer()]);
    let trait2_ins = generic_trait_instance(&mut db, trait2, vec![TypeRef::float()]);
    let trait3_ins = generic_trait_instance(&mut db, trait3, vec![TypeRef::string()]);

    trait3.add_required_trait(&mut db, trait2_ins);
    param.add_requirements(&mut db, vec![trait1_ins, trait3_ins]);

    let targs = owned(parameter(param)).type_arguments(&db);

    assert_eq!(targs.get(trait1_param), Some(TypeRef::integer()));
    assert_eq!(targs.get(trait2_param), Some(TypeRef::float()));
    assert_eq!(targs.get(trait3_param), Some(TypeRef::string()));
}

#[test]
fn test_type_ref_shape() {
    let mut db = Database::new();
    let mut inter = InternedTypeArguments::new();
    let string = ClassId::string();
    let int = ClassId::integer();
    let float = ClassId::float();
    let boolean = ClassId::boolean();
    let cls1 = new_class(&mut db, "Thing");
    let cls2 = new_class(&mut db, "Foo");
    let var = TypePlaceholder::allocate(&mut db, None);
    let param1 = new_parameter(&mut db, "T");
    let param2 = new_parameter(&mut db, "X");
    let mut shapes = HashMap::new();

    cls2.set_stack_allocated(&mut db);
    shapes.insert(param1.0, Shape::integer());
    var.assign(&mut db, TypeRef::integer());

    assert_eq!(TypeRef::integer().shape(&db, &mut inter, &shapes), Shape::integer());
    assert_eq!(TypeRef::float().shape(&db, &mut inter, &shapes), Shape::float());
    assert_eq!(TypeRef::boolean().shape(&db, &mut inter, &shapes), Shape::Boolean);
    assert_eq!(TypeRef::nil().shape(&db, &mut inter, &shapes), Shape::Nil);
    assert_eq!(TypeRef::string().shape(&db, &mut inter, &shapes), Shape::String);
    assert_eq!(uni(instance(cls1)).shape(&db, &mut inter, &shapes), Shape::Owned);
    assert_eq!(owned(instance(cls1)).shape(&db, &mut inter, &shapes), Shape::Owned);
    assert_eq!(immutable(instance(cls1)).shape(&db, &mut inter, &shapes), Shape::Ref);
    assert_eq!(mutable(instance(cls1)).shape(&db, &mut inter, &shapes), Shape::Mut);
    assert_eq!(uni(instance(cls1)).shape(&db, &mut inter, &shapes), Shape::Owned);
    assert_eq!(placeholder(var).shape(&db, &mut inter, &shapes), Shape::integer());
    assert_eq!(owned(parameter(param1)).shape(&db, &mut inter, &shapes), Shape::integer());
    assert_eq!(immutable(parameter(param1)).shape(&db, &mut inter, &shapes), Shape::integer());
    assert_eq!(mutable(parameter(param1)).shape(&db, &mut inter, &shapes), Shape::integer());
    assert_eq!(
        owned(TypeId::AtomicTypeParameter(param2)).shape(&db, &mut inter, &shapes),
        Shape::Atomic
    );
    assert_eq!(
        immutable(TypeId::AtomicTypeParameter(param2)).shape(&db, &mut inter, &shapes),
        Shape::Atomic
    );
    assert_eq!(
        mutable(TypeId::AtomicTypeParameter(param2)).shape(&db, &mut inter, &shapes),
        Shape::Atomic
    );

    assert_eq!(immutable(instance(string)).shape(&db, &mut inter, &shapes), Shape::String);
    assert_eq!(immutable(instance(int)).shape(&db, &mut inter, &shapes), Shape::integer());
    assert_eq!(immutable(instance(float)).shape(&db, &mut inter, &shapes), Shape::float());
    assert_eq!(immutable(instance(boolean)).shape(&db, &mut inter, &shapes), Shape::Boolean);
    assert_eq!(mutable(instance(string)).shape(&db, &mut inter, &shapes), Shape::String);
    assert_eq!(mutable(instance(int)).shape(&db, &mut inter, &shapes), Shape::integer());
    assert_eq!(mutable(instance(float)).shape(&db, &mut inter, &shapes), Shape::float());
    assert_eq!(mutable(instance(boolean)).shape(&db, &mut inter, &shapes), Shape::Boolean);
    assert_eq!(
        owned(TypeId::Foreign(ForeignType::Int(32, Sign::Signed))).shape(&db, &mut inter, &shapes),
        Shape::Int(32, Sign::Signed)
    );
    assert_eq!(
        owned(TypeId::Foreign(ForeignType::Int(32, Sign::Unsigned)))
            .shape(&db, &mut inter, &shapes),
        Shape::Int(32, Sign::Unsigned)
    );
    assert_eq!(
        uni(TypeId::Foreign(ForeignType::Int(32, Sign::Unsigned))).shape(&db, &mut inter, &shapes),
        Shape::Int(32, Sign::Unsigned)
    );
    assert_eq!(
        owned(TypeId::Foreign(ForeignType::Float(32))).shape(&db, &mut inter, &shapes),
        Shape::Float(32)
    );
    assert_eq!(
        owned(TypeId::Foreign(ForeignType::Float(64))).shape(&db, &mut inter, &shapes),
        Shape::Float(64)
    );
    assert_eq!(
        uni(TypeId::Foreign(ForeignType::Float(64))).shape(&db, &mut inter, &shapes),
        Shape::Float(64)
    );
    assert_eq!(
        pointer(TypeId::Foreign(ForeignType::Int(64, Sign::Signed)))
            .shape(&db, &mut inter, &shapes),
        Shape::Pointer
    );

    assert_eq!(
        owned(instance(cls2)).shape(&db, &mut inter, &shapes),
        Shape::Stack(ClassInstance::new(cls2))
    );
    assert_eq!(
        mutable(instance(cls2)).shape(&db, &mut inter, &shapes),
        Shape::Stack(ClassInstance::new(cls2))
    );
    assert_eq!(
        immutable(instance(cls2)).shape(&db, &mut inter, &shapes),
        Shape::Stack(ClassInstance::new(cls2))
    );
}

#[test]
fn test_type_ref_class_id() {
    let db = Database::new();

    assert_eq!(TypeRef::string().class_id(&db), Some(ClassId::string()));
    assert_eq!(owned(TypeId::Class(ClassId::string())).class_id(&db), Some(ClassId::string()));
}

#[test]
fn test_method_id_receiver_for_class_instance_with_process() {
    let mut db = Database::new();
    let method = Method::allocate(
        &mut db,
        ModuleId(0),
        Location::default(),
        "a".to_string(),
        Visibility::Private,
        MethodKind::Mutable,
    );

    let proc = new_async_class(&mut db, "A");
    let rec = method.receiver_for_class_instance(&db, ClassInstance::new(proc));

    assert_eq!(rec, mutable(instance(proc)));
}

#[test]
fn test_type_placeholder_id_as_owned() {
    let id = TypePlaceholderId { id: 1, ownership: Ownership::Any };

    assert_eq!(id.as_owned(), TypePlaceholderId { id: 1, ownership: Ownership::Owned });
}

#[test]
fn test_type_ref_is_stack_class_instance() {
    let mut db = Database::new();
    let ext = new_extern_class(&mut db, "A");

    assert!(owned(instance(ext)).is_extern_instance(&db));
    assert!(uni(instance(ext)).is_extern_instance(&db));
    assert!(!immutable(instance(ext)).is_extern_instance(&db));
    assert!(!mutable(instance(ext)).is_extern_instance(&db));
    assert!(!pointer(instance(ext)).is_extern_instance(&db));
}

#[test]
fn test_class_id_allow_cast() {
    let mut db = Database::new();
    let enum_class = new_enum_class(&mut db, "Option");
    let regular_class = new_class(&mut db, "Regular");
    let tuple_class = Class::allocate(
        &mut db,
        "Tuple1".to_string(),
        ClassKind::Tuple,
        Visibility::Public,
        ModuleId(0),
        Location::default(),
    );

    assert!(!ClassId::integer().allow_cast_to_trait(&db));
    assert!(!ClassId::float().allow_cast_to_trait(&db));
    assert!(!ClassId::boolean().allow_cast_to_trait(&db));
    assert!(!ClassId::nil().allow_cast_to_trait(&db));
    assert!(!ClassId::string().allow_cast_to_trait(&db));
    assert!(enum_class.allow_cast_to_trait(&db));
    assert!(tuple_class.allow_cast_to_trait(&db));
    assert!(regular_class.allow_cast_to_trait(&db));
}

#[test]
fn test_interned_type_arguments() {
    let mut db = Database::new();
    let mut intern = InternedTypeArguments::new();
    let ary = ClassId::array();
    let int = TypeRef::integer();
    let param = ary.new_type_parameter(&mut db, "T".to_string());
    let val1 = {
        let sub = owned(generic_instance_id(&mut db, ary, vec![int]));

        owned(generic_instance_id(&mut db, ary, vec![sub]))
    };
    let val2 = {
        let sub = owned(generic_instance_id(&mut db, ary, vec![int]));

        owned(generic_instance_id(&mut db, ary, vec![sub]))
    };
    let mut targs1 = TypeArguments::new();
    let mut targs2 = TypeArguments::new();

    targs1.assign(param, val1);
    targs2.assign(param, val2);

    let ins1 = ClassInstance::generic(&mut db, ary, targs1);
    let ins2 = ClassInstance::generic(&mut db, ary, targs2);
    let id1 = intern.intern(&db, ins1);
    let id2 = intern.intern(&db, ins2);
    let id3 = intern.intern(&db, ins1);
    let id4 = intern.intern(&db, ins2);

    assert_eq!(id1, ins1.type_arguments);
    assert_eq!(id2, id1);
    assert_eq!(id3, id1);
    assert_eq!(id4, id1);
}
