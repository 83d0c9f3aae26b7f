use std::collections::HashMap;
use types::arguments::TypeArguments;
use types::database::{Class, Database, Method, Module, Trait, TypeParameter, TypePlaceholder};
use types::intern::InternedTypeArguments;
use types::kinds::{ClassKind, MethodKind, MethodLookup, Symbol, Visibility};
use types::location::Location;
use types::module_name::ModuleName;
use types::type_ref::{
    ClassId, ClassInstance, ModuleId, Ownership, Shape, Sign, TraitInstance, TypeId,
    TypePlaceholderId, TypeRef,
};

fn class_of_kind(db: &mut Database, name: &str, kind: ClassKind) -> ClassId {
    Class::allocate(db, name.to_string(), kind, Visibility::Public, ModuleId(0),
        Location::default())
}

fn module(db: &mut Database, name: &str) -> ModuleId {
    Module::allocate(db, ModuleName::new(name), "source.inko".into())
}

fn instance(class: ClassId) -> TypeId {
    TypeId::ClassInstance(ClassInstance::new(class))
}

#[test]
fn placeholder_chain_reads_the_same_value_everywhere() {
    let mut db = Database::new();
    let first = TypePlaceholder::allocate(&mut db, None);
    let second = TypePlaceholder::allocate(&mut db, None);
    let third = TypePlaceholder::allocate(&mut db, None);

    first.assign(&mut db, TypeRef::Placeholder(second));
    second.assign(&mut db, TypeRef::Placeholder(third));

    assert_eq!(first.value(&db), None);
    assert_eq!(second.value(&db), None);
    assert_eq!(third.value(&db), None);

    third.assign(&mut db, TypeRef::integer());

    assert_eq!(first.value(&db), Some(TypeRef::integer()));
    assert_eq!(second.value(&db), Some(TypeRef::integer()));
    assert_eq!(third.value(&db), Some(TypeRef::integer()));
}

#[test]
fn placeholder_chain_applies_the_ownership_of_the_last_reference() {
    let mut db = Database::new();
    let thing = class_of_kind(&mut db, "Thing", ClassKind::Regular);
    let first = TypePlaceholder::allocate(&mut db, None);
    let second = TypePlaceholder::allocate(&mut db, None);

    second.assign(&mut db, TypeRef::Owned(instance(thing)));
    first.assign(&mut db, TypeRef::Placeholder(second.as_ref()));

    assert_eq!(first.as_uni().value(&db), Some(TypeRef::Ref(instance(thing))));
    assert_eq!(second.value(&db), Some(TypeRef::Owned(instance(thing))));
    assert_eq!(second.as_mut().value(&db), Some(TypeRef::Mut(instance(thing))));
}

#[test]
fn two_read_sites_do_not_interfere() {
    let mut db = Database::new();
    let thing = class_of_kind(&mut db, "Thing", ClassKind::Regular);
    let p = TypePlaceholder::allocate(&mut db, None);

    p.assign(&mut db, TypeRef::Owned(instance(thing)));

    assert_eq!(p.as_ref().value(&db), Some(TypeRef::Ref(instance(thing))));
    assert_eq!(p.as_uni().value(&db), Some(TypeRef::Uni(instance(thing))));
    assert_eq!(db.type_placeholders[p.id as usize].value, TypeRef::Owned(instance(thing)));
}

#[test]
fn self_assignment_changes_nothing() {
    let mut db = Database::new();
    let p = TypePlaceholder::allocate(&mut db, None);

    p.assign(&mut db, TypeRef::Placeholder(p));
    assert_eq!(p.value(&db), None);
    assert_eq!(db.type_placeholders[p.id as usize].value, TypeRef::Unknown);

    p.assign(&mut db, TypeRef::Placeholder(p.as_mut()));
    assert_eq!(db.type_placeholders[p.id as usize].value, TypeRef::Unknown);

    p.assign(&mut db, TypeRef::float());
    p.assign_internal(&mut db, TypeRef::Placeholder(p));
    assert_eq!(p.value(&db), Some(TypeRef::float()));
}

#[test]
fn new_placeholder_has_no_value_and_asks_for_no_ownership() {
    let mut db = Database::new();
    let param = TypeParameter::allocate(&mut db, "T".to_string());
    let p = TypePlaceholder::allocate(&mut db, Some(param));

    assert_eq!(p, TypePlaceholderId { id: 0, ownership: Ownership::Any });
    assert!(!p.has_ownership());
    assert!(p.as_owned().has_ownership());
    assert_eq!(p.value(&db), None);
    assert_eq!(p.required(&db), Some(param));
}

#[test]
fn interning_tells_different_structures_apart() {
    let mut db = Database::new();
    let mut interned = InternedTypeArguments::new();
    let list = class_of_kind(&mut db, "List", ClassKind::Regular);
    let param = list.new_type_parameter(&mut db, "T".to_string());
    let of = |db: &mut Database, typ: TypeRef| {
        let mut args = TypeArguments::new();

        args.assign(param, typ);
        ClassInstance::generic(db, list, args)
    };
    let ints1 = of(&mut db, TypeRef::integer());
    let floats = of(&mut db, TypeRef::float());
    let ints2 = of(&mut db, TypeRef::integer());
    let nested1 = of(&mut db, TypeRef::Owned(TypeId::ClassInstance(ints1)));
    let nested2 = of(&mut db, TypeRef::Ref(TypeId::ClassInstance(ints2)));

    let id_ints1 = interned.intern(&db, ints1);
    let id_floats = interned.intern(&db, floats);
    let id_ints2 = interned.intern(&db, ints2);
    let id_nested1 = interned.intern(&db, nested1);
    let id_nested2 = interned.intern(&db, nested2);

    assert_eq!(id_ints1, ints1.type_arguments);
    assert_eq!(id_floats, floats.type_arguments);
    assert_eq!(id_ints2, id_ints1);
    assert_ne!(id_floats, id_ints1);
    assert_eq!(id_nested1, nested1.type_arguments);
    assert_eq!(id_nested2, id_nested1);
    assert_eq!(interned.intern(&db, ints2), id_ints1);
}

#[test]
fn interning_looks_through_placeholders() {
    let mut db = Database::new();
    let mut interned = InternedTypeArguments::new();
    let list = class_of_kind(&mut db, "List", ClassKind::Regular);

    list.new_type_parameter(&mut db, "T".to_string());

    let inferred = ClassInstance::empty(&mut db, list);
    let stated = ClassInstance::with_types(&mut db, list, vec![TypeRef::integer()]);
    let placeholder = TypePlaceholderId { id: 0, ownership: Ownership::Any };

    placeholder.assign(&mut db, TypeRef::integer());

    let id = interned.intern(&db, stated);

    assert_eq!(id, stated.type_arguments);
    assert_eq!(interned.intern(&db, inferred), id);
}

#[test]
fn owned_after_ref_is_owned() {
    let mut db = Database::new();
    let heap = class_of_kind(&mut db, "Heap", ClassKind::Regular);
    let process = class_of_kind(&mut db, "Process", ClassKind::Async);
    let param = TypeParameter::allocate(&mut db, "T".to_string());
    let unresolved = TypePlaceholder::allocate(&mut db, None);
    let resolved = TypePlaceholder::allocate(&mut db, None);

    resolved.assign(&mut db, TypeRef::Uni(instance(heap)));

    let all = vec![
        TypeRef::integer(),
        TypeRef::string(),
        TypeRef::Owned(instance(heap)),
        TypeRef::Uni(instance(heap)),
        TypeRef::Mut(instance(heap)),
        TypeRef::Owned(instance(process)),
        TypeRef::Any(TypeId::TypeParameter(param)),
        TypeRef::Owned(TypeId::RigidTypeParameter(param)),
        TypeRef::Pointer(instance(heap)),
        TypeRef::Never,
        TypeRef::Error,
        TypeRef::Unknown,
        TypeRef::Placeholder(unresolved),
        TypeRef::Placeholder(resolved),
    ];

    for typ in all {
        assert_eq!(typ.as_ref(&db).as_owned(&db), typ.as_owned(&db));
    }
}

#[test]
fn borrow_of_extern_instance_is_a_pointer() {
    let mut db = Database::new();
    let ext = class_of_kind(&mut db, "Struct", ClassKind::Extern);
    let owned = TypeRef::Owned(instance(ext));

    assert!(ext.is_stack_allocated(&db));
    assert_eq!(owned.as_ref(&db), TypeRef::Pointer(instance(ext)));
    assert_eq!(owned.as_mut(&db), TypeRef::Pointer(instance(ext)));
    assert_eq!(owned.force_as_mut(&db), TypeRef::Pointer(instance(ext)));
    assert_eq!(owned.as_pointer(&db), TypeRef::Pointer(instance(ext)));
    assert_eq!(owned.as_ref(&db).as_owned(&db), TypeRef::Pointer(instance(ext)));
    assert_eq!(owned.as_owned(&db), owned);
}

#[test]
fn private_symbols_are_visible_within_their_root_namespace() {
    let mut db = Database::new();
    let foo = module(&mut db, "std.foo");
    let bar = module(&mut db, "std.bar");
    let bla = module(&mut db, "bla");
    let test_bla = module(&mut db, "test_bla");
    let in_foo = Class::allocate(
        &mut db,
        "A".to_string(),
        ClassKind::Regular,
        Visibility::Private,
        foo,
        Location::default(),
    );
    let in_bla = Trait::allocate(
        &mut db,
        "B".to_string(),
        Visibility::Private,
        bla,
        Location::default(),
    );
    let in_test = Method::allocate(
        &mut db,
        test_bla,
        Location::default(),
        "c".to_string(),
        Visibility::Private,
        MethodKind::Static,
    );
    let public = Class::allocate(
        &mut db,
        "D".to_string(),
        ClassKind::Regular,
        Visibility::Public,
        foo,
        Location::default(),
    );

    assert!(Symbol::Class(in_foo).is_private(&db));
    assert!(Symbol::Class(in_foo).is_visible_to(&db, foo));
    assert!(Symbol::Class(in_foo).is_visible_to(&db, bar));
    assert!(!Symbol::Class(in_foo).is_visible_to(&db, bla));
    assert!(!Symbol::Class(in_foo).is_visible_to(&db, test_bla));

    assert!(Symbol::Trait(in_bla).is_visible_to(&db, test_bla));
    assert!(!Symbol::Method(in_test).is_visible_to(&db, bla));
    assert!(Symbol::Method(in_test).is_visible_to(&db, test_bla));

    assert!(Symbol::Class(public).is_public(&db));
    assert!(Symbol::Class(public).is_visible_to(&db, bla));
    assert!(Symbol::Module(foo).is_visible_to(&db, bla));
}

#[test]
fn builtin_shapes_do_not_depend_on_the_ownership() {
    let db = Database::new();
    let mut interned = InternedTypeArguments::new();
    let shapes: HashMap<usize, Shape> = HashMap::new();
    let expected = vec![
        (ClassId::integer(), Shape::Int(64, Sign::Signed)),
        (ClassId::float(), Shape::Float(64)),
        (ClassId::boolean(), Shape::Boolean),
        (ClassId::nil(), Shape::Nil),
        (ClassId::string(), Shape::String),
    ];

    for (class, shape) in expected {
        let id = instance(class);

        assert_eq!(TypeRef::Owned(id).shape(&db, &mut interned, &shapes), shape);
        assert_eq!(TypeRef::Ref(id).shape(&db, &mut interned, &shapes), shape);
        assert_eq!(TypeRef::Mut(id).shape(&db, &mut interned, &shapes), shape);
        assert_eq!(TypeRef::Uni(id).shape(&db, &mut interned, &shapes), shape);
        assert_eq!(TypeRef::UniRef(id).shape(&db, &mut interned, &shapes), shape);
        assert_eq!(TypeRef::UniMut(id).shape(&db, &mut interned, &shapes), shape);
    }
}

#[test]
fn inferred_instance_has_the_shape_of_the_stated_one() {
    let mut db = Database::new();
    let mut interned = InternedTypeArguments::new();
    let shapes: HashMap<usize, Shape> = HashMap::new();
    let class = class_of_kind(&mut db, "A", ClassKind::Regular);
    let param = class.new_type_parameter(&mut db, "T".to_string());

    class.set_stack_allocated(&mut db);

    let inferred = ClassInstance::empty(&mut db, class);
    let placeholder = match inferred.type_arguments(&db).unwrap().get(param) {
        Some(TypeRef::Placeholder(id)) => id,
        other => panic!("the parameter is assigned {:?}", other),
    };

    assert_eq!(placeholder.required(&db), Some(param));
    assert_eq!(placeholder.value(&db), None);
    placeholder.assign(&mut db, TypeRef::integer());

    let stated = ClassInstance::with_types(&mut db, class, vec![TypeRef::integer()]);
    let of_stated = TypeRef::Owned(TypeId::ClassInstance(stated)).shape(&db, &mut interned,
        &shapes);
    let of_inferred =
        TypeRef::Owned(TypeId::ClassInstance(inferred)).shape(&db, &mut interned, &shapes);

    assert_ne!(inferred.type_arguments, stated.type_arguments);
    assert_eq!(
        of_stated,
        Shape::Stack(ClassInstance { instance_of: class, type_arguments: stated.type_arguments })
    );
    assert_eq!(of_inferred, of_stated);
    assert_eq!(
        TypeRef::Ref(TypeId::ClassInstance(inferred)).shape(&db, &mut interned, &shapes),
        of_stated
    );
}

#[test]
fn heap_instance_has_the_shape_of_its_ownership() {
    let mut db = Database::new();
    let mut interned = InternedTypeArguments::new();
    let shapes: HashMap<usize, Shape> = HashMap::new();
    let class = class_of_kind(&mut db, "A", ClassKind::Regular);

    class.new_type_parameter(&mut db, "T".to_string());

    let inferred = ClassInstance::empty(&mut db, class);
    let stated = ClassInstance::with_types(&mut db, class, vec![TypeRef::integer()]);

    TypePlaceholderId { id: 0, ownership: Ownership::Any }.assign(&mut db, TypeRef::integer());

    assert_eq!(
        TypeRef::Owned(TypeId::ClassInstance(inferred)).shape(&db, &mut interned, &shapes),
        Shape::Owned
    );
    assert_eq!(
        TypeRef::Owned(TypeId::ClassInstance(stated)).shape(&db, &mut interned, &shapes),
        Shape::Owned
    );
}

#[test]
fn shapes_of_type_parameters() {
    let mut db = Database::new();
    let mut interned = InternedTypeArguments::new();
    let mut shapes: HashMap<usize, Shape> = HashMap::new();
    let owned = TypeParameter::allocate(&mut db, "A".to_string());
    let atomic = TypeParameter::allocate(&mut db, "B".to_string());

    shapes.insert(owned.0, Shape::Owned);
    shapes.insert(atomic.0, Shape::Atomic);

    let plain = |id| TypeId::TypeParameter(id);

    assert_eq!(TypeRef::Any(plain(owned)).shape(&db, &mut interned, &shapes), Shape::Owned);
    assert_eq!(TypeRef::Ref(plain(owned)).shape(&db, &mut interned, &shapes), Shape::Ref);
    assert_eq!(TypeRef::Mut(plain(owned)).shape(&db, &mut interned, &shapes), Shape::Mut);
    assert_eq!(TypeRef::UniRef(plain(owned)).shape(&db, &mut interned, &shapes), Shape::Ref);
    assert_eq!(TypeRef::UniMut(plain(owned)).shape(&db, &mut interned, &shapes), Shape::Mut);
    assert_eq!(TypeRef::Ref(plain(atomic)).shape(&db, &mut interned, &shapes), Shape::Atomic);
    assert_eq!(TypeRef::Mut(plain(atomic)).shape(&db, &mut interned, &shapes), Shape::Atomic);
    assert_eq!(
        TypeRef::Placeholder(TypePlaceholder::allocate(&mut db, None))
            .shape(&db, &mut interned, &shapes),
        Shape::Owned
    );
    assert_eq!(TypeRef::Never.shape(&db, &mut interned, &shapes), Shape::Owned);
}

#[test]
fn trait_requirements_store_the_inherited_arguments() {
    let mut db = Database::new();
    let a = Trait::allocate(&mut db, "A".to_string(), Visibility::Public, ModuleId(0), Location::default());
    let b = Trait::allocate(&mut db, "B".to_string(), Visibility::Public, ModuleId(0), Location::default());
    let c = Trait::allocate(&mut db, "C".to_string(), Visibility::Public, ModuleId(0), Location::default());
    let first = a.new_type_parameter(&mut db, "X".to_string());
    let second = b.new_type_parameter(&mut db, "Y".to_string());
    let third = c.new_type_parameter(&mut db, "Z".to_string());
    let any = |id| TypeRef::Any(TypeId::TypeParameter(id));

    let mut a_args = TypeArguments::new();
    a_args.assign(first, any(second));
    let a_of_p2 = TraitInstance::generic(&mut db, a, a_args);
    b.add_required_trait(&mut db, a_of_p2);

    let mut b_args = TypeArguments::new();
    b_args.assign(second, any(third));
    let b_of_p3 = TraitInstance::generic(&mut db, b, b_args);
    c.add_required_trait(&mut db, b_of_p3);

    assert_eq!(b.inherited_type_arguments(&db).pairs(), vec![(first, any(second))]);
    assert_eq!(c.inherited_type_arguments(&db).pairs(), vec![(first, any(second)), (second,
        any(third))]);
    assert_eq!(c.required_traits(&db), vec![b_of_p3]);
    assert!(a.inherited_type_arguments(&db).is_empty());

    let mut c_args = c.inherited_type_arguments(&db).duplicate();
    c_args.assign(third, TypeRef::integer());

    assert_eq!(c_args.get_recursive(&db, first), Some(TypeRef::integer()));
    assert_eq!(c_args.get_recursive(&db, second), Some(TypeRef::integer()));
}

#[test]
fn method_lookup_reports_each_outcome() {
    let mut db = Database::new();
    let std_foo = module(&mut db, "std.foo");
    let std_bar = module(&mut db, "std.bar");
    let other = module(&mut db, "other");
    let class = class_of_kind(&mut db, "Thing", ClassKind::Regular);
    let make = |db: &mut Database, name: &str, vis, kind| {
        let id = Method::allocate(db, std_foo, Location::default(), name.to_string(), vis, kind);

        class.add_method(db, name.to_string(), id);
        id
    };
    let public = make(&mut db, "public", Visibility::Public, MethodKind::Instance);
    let private = make(&mut db, "private", Visibility::Private, MethodKind::Instance);
    let hidden = make(&mut db, "hidden", Visibility::TypePrivate, MethodKind::Mutable);
    let fixed = make(&mut db, "fixed", Visibility::Public, MethodKind::Static);
    make(&mut db, "drop", Visibility::Public, MethodKind::Destructor);

    let on_instance = instance(class);
    let on_class = TypeId::Class(class);

    assert_eq!(on_instance.lookup_method(&db, "public", other, false), MethodLookup::Found(public));
    assert_eq!(on_instance.lookup_method(&db, "private", std_bar, false), MethodLookup::Found(private));
    assert_eq!(on_instance.lookup_method(&db, "private", other, false), MethodLookup::Private);
    assert_eq!(on_instance.lookup_method(&db, "hidden", std_foo, false), MethodLookup::Private);
    assert_eq!(on_instance.lookup_method(&db, "hidden", other, true), MethodLookup::Found(hidden));
    assert_eq!(on_instance.lookup_method(&db, "drop", std_foo, true), MethodLookup::Private);
    assert_eq!(on_instance.lookup_method(&db, "fixed", other, false), MethodLookup::StaticOnInstance);
    assert_eq!(on_class.lookup_method(&db, "fixed", other, false), MethodLookup::Found(fixed));
    assert_eq!(on_class.lookup_method(&db, "public", other, false), MethodLookup::InstanceOnStatic);
    assert_eq!(on_instance.lookup_method(&db, "missing", other, false), MethodLookup::Missing);
    assert_eq!(
        TypeId::Foreign(types::type_ref::ForeignType::Float(32))
            .lookup_method(&db, "public", other, false),
        MethodLookup::Missing
    );
}

#[test]
fn method_lookup_prefers_the_type_over_its_traits() {
    let mut db = Database::new();
    let home = module(&mut db, "home");
    let base = Trait::allocate(&mut db, "Base".to_string(), Visibility::Public, home, Location::default());
    let derived = Trait::allocate(&mut db, "Derived".to_string(), Visibility::Public, home, Location::default());
    let make = |db: &mut Database, name: &str| {
        Method::allocate(
            db,
            home,
            Location::default(),
            name.to_string(),
            Visibility::Public,
            MethodKind::Instance,
        )
    };
    let base_foo = make(&mut db, "foo");
    let base_bar = make(&mut db, "bar");
    let derived_foo = make(&mut db, "foo");
    let required = make(&mut db, "needed");

    base.add_default_method(&mut db, "foo".to_string(), base_foo);
    base.add_default_method(&mut db, "bar".to_string(), base_bar);
    derived.add_default_method(&mut db, "foo".to_string(), derived_foo);
    derived.add_required_method(&mut db, "needed".to_string(), required);
    derived.add_required_trait(&mut db, TraitInstance::new(base));

    let param = TypeParameter::allocate(&mut db, "T".to_string());

    param.add_requirements(&mut db, vec![TraitInstance::new(derived)]);

    assert_eq!(derived.method(&db, "foo"), Some(derived_foo));
    assert_eq!(derived.method(&db, "bar"), Some(base_bar));
    assert_eq!(derived.method(&db, "needed"), Some(required));
    assert_eq!(derived.method(&db, "other"), None);
    assert_eq!(base.method(&db, "needed"), None);
    assert!(derived.method_exists(&db, "needed"));
    assert!(!derived.method_exists(&db, "bar"));
    assert_eq!(param.method(&db, "bar"), Some(base_bar));
    assert_eq!(TypeId::TypeParameter(param).method(&db, "foo"), Some(derived_foo));
    assert_eq!(
        TypeId::TraitInstance(TraitInstance::new(derived)).lookup_method(&db, "bar", home, false),
        MethodLookup::Found(base_bar)
    );
    assert_eq!(
        TypeId::Trait(derived).lookup_method(&db, "bar", home, false),
        MethodLookup::InstanceOnStatic
    );
}

#[test]
fn module_lookup_falls_back_to_extern_methods() {
    let mut db = Database::new();
    let home = module(&mut db, "home");
    let fixed = Method::allocate(
        &mut db,
        home,
        Location::default(),
        "fixed".to_string(),
        Visibility::Public,
        MethodKind::Static,
    );
    let foreign = Method::allocate(
        &mut db,
        home,
        Location::default(),
        "malloc".to_string(),
        Visibility::Private,
        MethodKind::Extern,
    );

    home.add_method(&mut db, "fixed".to_string(), fixed);
    home.add_extern_method(&mut db, foreign);

    let on_module = TypeId::Module(home);

    assert_eq!(on_module.lookup_method(&db, "fixed", home, false), MethodLookup::Found(fixed));
    assert_eq!(on_module.lookup_method(&db, "malloc", home, false), MethodLookup::Found(foreign));
    assert_eq!(on_module.lookup_method(&db, "free", home, false), MethodLookup::Missing);
    assert_eq!(home.extern_method(&db, "malloc"), Some(foreign));
    assert_eq!(home.method(&db, "fixed"), Some(fixed));
    assert_eq!(home.methods(&db), vec![fixed]);
}

#[test]
fn method_lookup_falls_back_to_implemented_traits() {
    let mut db = Database::new();
    let home = module(&mut db, "home");
    let class = class_of_kind(&mut db, "Thing", ClassKind::Regular);
    let base = Trait::allocate(&mut db, "Base".to_string(), Visibility::Public, home, Location::default());
    let show = Trait::allocate(&mut db, "Show".to_string(), Visibility::Public, home, Location::default());
    let make = |db: &mut Database, name: &str| {
        Method::allocate(
            db,
            home,
            Location::default(),
            name.to_string(),
            Visibility::Public,
            MethodKind::Instance,
        )
    };
    let own = make(&mut db, "show");
    let default_show = make(&mut db, "show");
    let default_print = make(&mut db, "print");
    let default_base = make(&mut db, "base");
    let required = make(&mut db, "needed");

    class.add_method(&mut db, "show".to_string(), own);
    show.add_default_method(&mut db, "show".to_string(), default_show);
    show.add_default_method(&mut db, "print".to_string(), default_print);
    show.add_required_method(&mut db, "needed".to_string(), required);
    base.add_default_method(&mut db, "base".to_string(), default_base);
    show.add_required_trait(&mut db, TraitInstance::new(base));

    let on_instance = instance(class);

    assert_eq!(on_instance.method(&db, "print"), None);

    class.add_trait_implementation(
        &mut db,
        types::arguments::TraitImplementation {
            instance: TraitInstance::new(show),
            bounds: types::arguments::TypeBounds::new(),
        },
    );

    assert_eq!(on_instance.method(&db, "show"), Some(own));
    assert_eq!(on_instance.method(&db, "print"), Some(default_print));
    assert_eq!(on_instance.method(&db, "base"), Some(default_base));
    assert_eq!(on_instance.method(&db, "needed"), None);
    assert_eq!(class.method(&db, "print"), None);
    assert_eq!(class.implemented_method(&db, "show"), Some(default_show));
    assert_eq!(show.default_method(&db, "needed"), None);
    assert_eq!(show.method(&db, "needed"), Some(required));
    assert_eq!(
        on_instance.lookup_method(&db, "print", home, false),
        MethodLookup::Found(default_print)
    );
    assert_eq!(
        TypeId::Class(class).lookup_method(&db, "print", home, false),
        MethodLookup::InstanceOnStatic
    );
    assert_eq!(on_instance.lookup_method(&db, "needed", home, false), MethodLookup::Missing);
}
