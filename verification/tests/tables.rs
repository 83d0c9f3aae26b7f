use types::arguments::{TraitImplementation, TypeArguments, TypeBounds};
use types::block::Block;
use types::database::{
    Argument, Class, Closure, Constant, Database, Field, Method, Module, Trait, TypeParameter,
    TypePlaceholder, Variable,
};
use types::instruction::{Instruction, InstructionType};
use types::intrinsic::Intrinsic;
use types::kinds::{
    CallConvention, ClassKind, Inline, MethodKind, MethodSource, Receiver, Storage, Symbol,
    ThrowKind, Visibility,
};
use types::location::Location;
use types::module_name::ModuleName;
use types::process::{LocalData, ProcessStatus};
use types::type_ref::{
    ClassId, ClassInstance, ConstantId, ConstructorId, FieldId, ForeignType, MethodId, ModuleId,
    Shape, Sign, TraitInstance, TypeId, TypeParameterId, TypeRef, VariableId,
};
use types::{FIRST_USER_CLASS_ID, OPTION_CLASS, OPTION_MODULE, RESULT_CLASS, RESULT_MODULE};

fn class_of_kind(db: &mut Database, name: &str, kind: ClassKind) -> ClassId {
    Class::allocate(db, name.to_string(), kind, Visibility::Public, ModuleId(0),
        Location::default())
}

fn method(db: &mut Database, name: &str, kind: MethodKind) -> MethodId {
    Method::allocate(
        db,
        ModuleId(0),
        Location::default(),
        name.to_string(),
        Visibility::Public,
        kind,
    )
}

fn instance(class: ClassId) -> TypeId {
    TypeId::ClassInstance(ClassInstance::new(class))
}

#[test]
fn intrinsics_are_found_by_their_names() {
    let db = Database::new();
    let mapping = Intrinsic::mapping();

    assert_eq!(Intrinsic::all().len(), 50);
    assert_eq!(mapping.len(), 50);

    for intrinsic in Intrinsic::all() {
        assert_eq!(mapping.get(intrinsic.name()), Some(intrinsic));
        assert_eq!(db.intrinsic(intrinsic.name()), Some(intrinsic));
    }

    assert_eq!(Intrinsic::FloatAdd.name(), "float_add");
    assert_eq!(Intrinsic::IntUnsignedShr.name(), "int_unsigned_shr");
    assert_eq!(Intrinsic::SpinLoopHint.name(), "spin_loop_hint");
    assert_eq!(db.intrinsic("int_checked_mul"), Some(Intrinsic::IntCheckedMul));
    assert_eq!(db.intrinsic("bool_eq"), Some(Intrinsic::BoolEq));
    assert_eq!(db.intrinsic("int_add"), None);
    assert_eq!(db.intrinsic(""), None);
}

#[test]
fn intrinsics_return_what_they_compute() {
    let checked = TypeRef::Owned(instance(ClassId::checked_int_result()));
    let runtime = TypeRef::Pointer(TypeId::Foreign(ForeignType::Int(8, Sign::Unsigned)));

    assert_eq!(Intrinsic::FloatAdd.return_type(), TypeRef::float());
    assert_eq!(Intrinsic::FloatEq.return_type(), TypeRef::boolean());
    assert_eq!(Intrinsic::FloatIsNan.return_type(), TypeRef::boolean());
    assert_eq!(Intrinsic::FloatToBits.return_type(), TypeRef::integer());
    assert_eq!(Intrinsic::FloatFromBits.return_type(), TypeRef::float());
    assert_eq!(Intrinsic::FloatPowi.return_type(), TypeRef::float());
    assert_eq!(Intrinsic::IntDiv.return_type(), TypeRef::integer());
    assert_eq!(Intrinsic::IntLt.return_type(), TypeRef::boolean());
    assert_eq!(Intrinsic::IntCompareSwap.return_type(), TypeRef::boolean());
    assert_eq!(Intrinsic::IntAbsolute.return_type(), TypeRef::integer());
    assert_eq!(Intrinsic::IntCheckedAdd.return_type(), checked);
    assert_eq!(Intrinsic::IntCheckedMul.return_type(), checked);
    assert_eq!(Intrinsic::IntCheckedSub.return_type(), checked);
    assert_eq!(Intrinsic::Moved.return_type(), TypeRef::nil());
    assert_eq!(Intrinsic::SpinLoopHint.return_type(), TypeRef::nil());
    assert_eq!(Intrinsic::Panic.return_type(), TypeRef::Never);
    assert_eq!(Intrinsic::StringConcat.return_type(), TypeRef::string());
    assert_eq!(Intrinsic::State.return_type(), runtime);
    assert_eq!(Intrinsic::Process.return_type(), runtime);
    assert_eq!(Intrinsic::BoolEq.return_type(), TypeRef::boolean());
}

#[test]
fn builtin_classes_have_fixed_ids() {
    let db = Database::new();
    let names = [
        "String",
        "ByteArray",
        "Int",
        "Float",
        "Bool",
        "Nil",
        "Tuple1",
        "Tuple2",
        "Tuple3",
        "Tuple4",
        "Tuple5",
        "Tuple6",
        "Tuple7",
        "Tuple8",
        "Array",
        "CheckedIntResult",
    ];

    assert_eq!(FIRST_USER_CLASS_ID, 16);
    assert_eq!(db.number_of_classes(), 16);

    for (id, name) in names.iter().enumerate() {
        assert_eq!(db.builtin_class(name), Some(ClassId(id as u32)));
        assert_eq!(ClassId(id as u32).name(&db), name);
    }

    assert_eq!(db.builtin_class("Thing"), None);
    assert_eq!(db.builtin_class("int"), None);
    assert_eq!(ClassId::string().kind(&db), ClassKind::Atomic);
    assert_eq!(ClassId::array().kind(&db), ClassKind::Regular);
    assert_eq!(ClassId::tuple3().kind(&db), ClassKind::Tuple);
    assert_eq!(ClassId::checked_int_result().kind(&db), ClassKind::Extern);
    assert!(ClassId::checked_int_result().is_private(&db));
    assert!(ClassId::integer().is_stack_allocated(&db));
    assert!(ClassId::nil().is_value_type(&db));
    assert!(ClassId::string().is_value_type(&db));
    assert!(ClassId::string().is_heap_allocated(&db));
    assert!(ClassId::byte_array().has_object_header(&db));
    assert!(!ClassId::byte_array().is_value_type(&db));
    assert!(ClassId::checked_int_result().is_stack_allocated(&db));
    assert!(ClassId::integer().is_numeric());
    assert!(ClassId::float().is_numeric());
    assert!(!ClassId::boolean().is_numeric());
    assert!(ClassId::nil().is_builtin());
    assert!(!ClassId::tuple1().is_builtin());
}

#[test]
fn tuple_classes_by_length() {
    assert_eq!(ClassId::tuple(0), None);
    assert_eq!(ClassId::tuple(1), Some(ClassId(6)));
    assert_eq!(ClassId::tuple(2), Some(ClassId::tuple2()));
    assert_eq!(ClassId::tuple(5), Some(ClassId(10)));
    assert_eq!(ClassId::tuple(8), Some(ClassId(13)));
    assert_eq!(ClassId::tuple(9), None);
    assert_eq!(ClassId::tuple(usize::MAX), None);
}

#[test]
fn class_casts_and_mutation() {
    let mut db = Database::new();
    let heap = class_of_kind(&mut db, "Heap", ClassKind::Regular);
    let inline = class_of_kind(&mut db, "Inline", ClassKind::Enum);
    let ext = class_of_kind(&mut db, "Ext", ClassKind::Extern);
    let process = class_of_kind(&mut db, "Proc", ClassKind::Async);
    let closure = class_of_kind(&mut db, "Fn", ClassKind::Closure);

    inline.set_stack_allocated(&mut db);

    assert!(heap.allow_mutating(&db));
    assert!(!inline.allow_mutating(&db));
    assert!(ext.allow_mutating(&db));
    assert!(process.allow_mutating(&db));
    assert!(!ClassId::string().allow_mutating(&db));
    assert!(!ClassId::integer().allow_mutating(&db));

    assert!(heap.allow_cast_to_trait(&db));
    assert!(!inline.allow_cast_to_trait(&db));
    assert!(!ext.allow_cast_to_trait(&db));
    assert!(!process.allow_cast_to_trait(&db));
    assert!(!closure.allow_cast_to_trait(&db));

    assert!(heap.allow_cast_to_foreign(&db));
    assert!(!inline.allow_cast_to_foreign(&db));
    assert!(ClassId::integer().allow_cast_to_foreign(&db));
    assert!(ClassId::float().allow_cast_to_foreign(&db));
    assert!(ClassId::boolean().allow_cast_to_foreign(&db));
    assert!(!ClassId::nil().allow_cast_to_foreign(&db));

    assert!(heap.allow_trait_implementations(&db));
    assert!(!ext.allow_trait_implementations(&db));
    assert!(!process.allow_trait_implementations(&db));
    assert!(process.is_atomic(&db));
    assert!(process.is_value_type(&db));
    assert!(closure.is_closure(&db));
    assert_eq!(db.classes[ext.0 as usize].storage, Storage::Stack);
    assert_eq!(db.classes[heap.0 as usize].storage, Storage::Heap);
}

#[test]
fn fields_keep_the_order_of_their_definition() {
    let mut db = Database::new();
    let class = class_of_kind(&mut db, "Option", ClassKind::Enum);
    let add = |db: &mut Database, name: &str, index: usize, typ: TypeRef| {
        class.new_field(
            db,
            name.to_string(),
            index,
            typ,
            Visibility::Private,
            ModuleId(0),
            Location::default(),
        )
    };
    let tag = add(&mut db, "tag", 0, TypeRef::integer());
    let first = add(&mut db, "0", 1, TypeRef::string());
    let second = add(&mut db, "1", 2, TypeRef::float());

    assert_eq!((tag, first, second), (FieldId(0), FieldId(1), FieldId(2)));
    assert_eq!(class.number_of_fields(&db), 3);
    assert_eq!(class.fields(&db), vec![tag, first, second]);
    assert_eq!(class.enum_fields(&db), vec![first, second]);
    assert_eq!(class.field_names(&db), vec!["tag".to_string(), "0".to_string(), "1".to_string()]);
    assert_eq!(class.field(&db, "0"), Some(first));
    assert_eq!(class.field(&db, "2"), None);
    assert_eq!(class.field_by_index(&db, 0), Some(tag));
    assert_eq!(class.field_by_index(&db, 2), Some(second));
    assert_eq!(class.field_by_index(&db, 3), None);
    assert_eq!(first.name(&db), "0");
    assert_eq!(first.index(&db), 1);
    assert_eq!(second.value_type(&db), TypeRef::float());
    assert!(!first.is_public(&db));
    assert_eq!(TypeRef::Mut(instance(class)).fields(&db), vec![tag, first, second]);
    assert!(TypeRef::Pointer(instance(class)).fields(&db).is_empty());

    let replaced = add(&mut db, "0", 1, TypeRef::boolean());

    assert_eq!(class.number_of_fields(&db), 3);
    assert_eq!(class.fields(&db), vec![tag, replaced, second]);
    assert_eq!(class.field(&db, "0"), Some(replaced));

    let regular = class_of_kind(&mut db, "Thing", ClassKind::Regular);

    assert!(regular.enum_fields(&db).is_empty());
    assert!(regular.fields(&db).is_empty());
}

#[test]
fn field_visibility() {
    let mut db = Database::new();
    let std_foo = Module::allocate(&mut db, ModuleName::new("std.foo"), "a.inko".into());
    let std_bar = Module::allocate(&mut db, ModuleName::new("std.bar"), "b.inko".into());
    let app = Module::allocate(&mut db, ModuleName::new("app"), "c.inko".into());
    let field = |db: &mut Database, vis| {
        Field::allocate(db, "a".to_string(), 0, TypeRef::integer(), vis, std_foo, Location::default())
    };
    let public = field(&mut db, Visibility::Public);
    let private = field(&mut db, Visibility::Private);
    let hidden = field(&mut db, Visibility::TypePrivate);

    assert!(public.is_visible_to(&db, app));
    assert!(private.is_visible_to(&db, std_bar));
    assert!(!private.is_visible_to(&db, app));
    assert!(!hidden.is_visible_to(&db, std_foo));
    assert!(Visibility::Private.is_private());
    assert!(Visibility::TypePrivate.is_private());
    assert!(!Visibility::Public.is_private());
    assert_eq!(Visibility::public(true), Visibility::Public);
    assert_eq!(Visibility::public(false), Visibility::Private);
}

#[test]
fn constructors_are_numbered_within_their_class() {
    let mut db = Database::new();
    let first = class_of_kind(&mut db, "A", ClassKind::Enum);
    let second = class_of_kind(&mut db, "B", ClassKind::Enum);
    let some = first.new_constructor(
        &mut db,
        "Some".to_string(),
        vec![TypeRef::integer()],
        Location::default(),
    );
    let none = first.new_constructor(&mut db, "None".to_string(), Vec::new(), Location::default());
    let other = second.new_constructor(&mut db, "Other".to_string(), Vec::new(), Location::default());

    assert_eq!((some, none, other), (ConstructorId(0), ConstructorId(1), ConstructorId(2)));
    assert_eq!(some.id(&db), 0);
    assert_eq!(none.id(&db), 1);
    assert_eq!(other.id(&db), 0);
    assert_eq!(some.name(&db), "Some");
    assert_eq!(some.arguments(&db), &[TypeRef::integer()]);
    assert_eq!(some.number_of_arguments(&db), 1);
    assert_eq!(none.number_of_arguments(&db), 0);
    assert_eq!(first.constructors(&db), vec![some, none]);
    assert_eq!(first.constructor(&db, "None"), Some(none));
    assert_eq!(first.constructor(&db, "Other"), None);
    assert_eq!(first.number_of_constructors(&db), 2);

    none.set_arguments(&mut db, vec![TypeRef::float(), TypeRef::nil()]);
    assert_eq!(none.arguments(&db), &[TypeRef::float(), TypeRef::nil()]);
}

#[test]
fn constants_are_numbered_within_their_module() {
    let mut db = Database::new();
    let first = Module::allocate(&mut db, ModuleName::new("first"), "a.inko".into());
    let second = Module::allocate(&mut db, ModuleName::new("second"), "b.inko".into());
    let make = |db: &mut Database, module, name: &str| {
        Constant::allocate(
            db,
            module,
            Location::default(),
            name.to_string(),
            Visibility::Private,
            TypeRef::integer(),
        )
    };
    let a = make(&mut db, first, "A");
    let b = make(&mut db, second, "B");
    let c = make(&mut db, first, "C");

    assert_eq!((a, b, c), (ConstantId(0), ConstantId(1), ConstantId(2)));
    assert_eq!(a.module_local_id(&db), 0);
    assert_eq!(b.module_local_id(&db), 0);
    assert_eq!(c.module_local_id(&db), 1);
    assert_eq!(first.constants(&db), &vec![a, c]);
    assert_eq!(first.symbol(&db, "C"), Some(Symbol::Constant(c)));
    assert_eq!(second.symbol(&db, "C"), None);
    assert!(!first.symbol_is_used(&db, "C"));
    assert_eq!(c.module(&db), first);
    assert_eq!(c.name(&db), "C");
    assert_eq!(c.value_type(&db), TypeRef::integer());
    assert!(!c.is_public(&db));
}

#[test]
fn modules_have_a_class_of_their_own() {
    let mut db = Database::new();
    let first = Module::allocate(&mut db, ModuleName::new("std.first"), "a.inko".into());
    let second = Module::allocate(&mut db, ModuleName::new("second"), "b.inko".into());

    assert_eq!(first.class(&db), ClassId(16));
    assert_eq!(second.class(&db), ClassId(17));
    assert_eq!(first.class(&db).kind(&db), ClassKind::Module);
    assert_eq!(first.class(&db).module(&db), first);
    assert_eq!(first.class(&db).name(&db), "std.first");
    assert!(first.class(&db).is_private(&db));
    assert_eq!(db.optional_module("second"), Some(second));
    assert_eq!(db.optional_module("third"), None);
    assert_eq!(db.number_of_modules(), 2);
    assert!(first.is_std(&db));
    assert!(!second.is_std(&db));
    assert_eq!(first.name(&db).as_str(), "std.first");
    assert_eq!(first.method_symbol_name(&db), &ModuleName::new("std.first"));
    assert_eq!(TypeRef::module(first).class_id(&db), Some(ClassId(16)));
    assert_eq!(TypeRef::module(first).as_class(&db), Some(ClassId(16)));
    assert!(TypeRef::module(first).is_value_type(&db));
}

#[test]
fn modules_list_their_own_classes_and_traits() {
    let mut db = Database::new();
    let home = Module::allocate(&mut db, ModuleName::new("home"), "a.inko".into());
    let away = Module::allocate(&mut db, ModuleName::new("away"), "b.inko".into());
    let class = |db: &mut Database, name: &str, module| {
        Class::allocate(
            db,
            name.to_string(),
            ClassKind::Regular,
            Visibility::Public,
            module,
            Location::default(),
        )
    };
    let own = class(&mut db, "Own", home);
    let generated = class(&mut db, "$Closure", home);
    let imported = class(&mut db, "Imported", away);
    let own_trait =
        Trait::allocate(&mut db, "Show".to_string(), Visibility::Public, home, Location::default());
    let their_trait =
        Trait::allocate(&mut db, "Hide".to_string(), Visibility::Public, away, Location::default());

    home.new_symbol(&mut db, "Imported".to_string(), Symbol::Class(imported));
    home.new_symbol(&mut db, "$Closure".to_string(), Symbol::Class(generated));
    home.new_symbol(&mut db, "Show".to_string(), Symbol::Trait(own_trait));
    home.new_symbol(&mut db, "Own".to_string(), Symbol::Class(own));
    home.new_symbol(&mut db, "Hide".to_string(), Symbol::Trait(their_trait));

    assert_eq!(home.classes(&db), vec![own]);
    assert_eq!(home.traits(&db), vec![own_trait]);
    assert!(away.classes(&db).is_empty());
    assert_eq!(home.symbols(&db).len(), 5);
}

#[test]
fn module_names() {
    let name = ModuleName::new("std.net.socket");

    assert_eq!(name.head(), "std");
    assert!(!name.is_root());
    assert!(name.is_std());
    assert_eq!(name.as_str(), "std.net.socket");
    assert_eq!(name.to_string(), "std.net.socket");
    assert_eq!(ModuleName::new("main").head(), "main");
    assert!(ModuleName::new("main").is_root());
    assert!(!ModuleName::new("std").is_std());
    assert!(!ModuleName::new("stdlib.foo").is_std());
    assert!(!ModuleName::new("st.d").is_std());
    assert!(ModuleName::new("").is_root());
    assert_eq!(ModuleName::new(".a").head(), "");

    let sees = |ours: &str, theirs: &str| {
        ModuleName::new(ours).shares_root_namespace(&ModuleName::new(theirs))
    };

    assert!(sees("std.foo", "std.bar"));
    assert!(sees("std.foo", "std"));
    assert!(sees("bla", "test_bla"));
    assert!(sees("bla.inner", "test_bla"));
    assert!(!sees("test_bla", "bla"));
    assert!(!sees("bla", "test_bla.inner"));
    assert!(!sees("bla", "test_blab"));
    assert!(!sees("bla", "test_"));
    assert!(sees("", "test_"));
    assert!(!sees("bla", "tests_bla"));
    assert!(!sees("std.foo", "bla"));
    assert!(sees("täst.a", "täst.b"));
}

#[test]
fn methods_follow_their_kind() {
    let mut db = Database::new();
    let kinds = [
        MethodKind::Async,
        MethodKind::AsyncMutable,
        MethodKind::Static,
        MethodKind::Constructor,
        MethodKind::Instance,
        MethodKind::Moving,
        MethodKind::Mutable,
        MethodKind::Destructor,
        MethodKind::Extern,
    ];
    let class = class_of_kind(&mut db, "Thing", ClassKind::Regular);
    let mut ids = Vec::new();

    for (index, kind) in kinds.iter().enumerate() {
        let id = method(&mut db, &format!("m{}", index), *kind);

        class.add_method(&mut db, format!("m{}", index), id);
        ids.push(id);
    }

    let flags = |f: &dyn Fn(MethodId) -> bool| ids.iter().map(|id| f(*id)).collect::<Vec<_>>();

    assert_eq!(
        flags(&|id| id.is_instance(&db)),
        vec![true, true, false, false, true, true, true, true, false]
    );
    assert_eq!(
        flags(&|id| id.is_static(&db)),
        vec![false, false, true, true, false, false, false, false, false]
    );
    assert_eq!(
        flags(&|id| id.is_mutable(&db)),
        vec![false, true, false, false, false, false, true, false, false]
    );
    assert_eq!(
        flags(&|id| id.is_immutable(&db)),
        vec![true, false, true, false, true, false, false, false, false]
    );
    assert_eq!(
        flags(&|id| id.is_async(&db)),
        vec![true, true, false, false, false, false, false, false, false]
    );
    assert_eq!(
        flags(&|id| id.uses_c_calling_convention(&db)),
        vec![false, false, false, false, false, false, false, false, true]
    );
    assert!(ids[8].is_extern(&db));
    assert!(ids[5].is_moving(&db));
    assert_eq!(class.methods(&db), ids);
    assert_eq!(class.number_of_methods(&db), 9);
    assert_eq!(
        class.instance_methods(&db),
        vec![ids[0], ids[1], ids[4], ids[5], ids[6], ids[7]]
    );
    assert_eq!(class.static_methods(&db), vec![ids[2], ids[3]]);
    assert!(MethodKind::Constructor.is_static());
    assert!(MethodKind::Constructor.is_constructor());
    assert!(!MethodKind::Static.is_constructor());
    assert_eq!(ids[0].inline(&db), Inline::Infer);
    assert_eq!(ids[8].inline(&db), Inline::Never);
    assert_eq!(ids[8].call_convention(&db), CallConvention::C);
    assert_eq!(CallConvention::new(true), CallConvention::C);
    assert_eq!(CallConvention::new(false), CallConvention::Inko);

    ids[4].mark_as_destructor(&mut db);
    assert_eq!(ids[4].kind(&db), MethodKind::Destructor);
    assert_eq!(ids[4].inline(&db), Inline::Always);
}

#[test]
fn method_receivers() {
    let mut db = Database::new();
    let thing = class_of_kind(&mut db, "Thing", ClassKind::Regular);
    let process = class_of_kind(&mut db, "Proc", ClassKind::Async);
    let ins = ClassInstance::new(thing);
    let rec = TypeId::ClassInstance(ins);
    let of = |db: &mut Database, kind, receiver: TypeRef, instance| {
        let id = method(db, "m", kind);

        id.set_receiver(db, receiver);
        id.receiver_for_class_instance(db, instance)
    };
    let heap = TypeRef::Owned(rec);

    assert_eq!(of(&mut db, MethodKind::Instance, heap, ins), TypeRef::Ref(rec));
    assert_eq!(of(&mut db, MethodKind::Mutable, heap, ins), TypeRef::Mut(rec));
    assert_eq!(of(&mut db, MethodKind::Destructor, heap, ins), TypeRef::Mut(rec));
    assert_eq!(of(&mut db, MethodKind::Moving, heap, ins), TypeRef::Owned(rec));
    assert_eq!(of(&mut db, MethodKind::Static, heap, ins), TypeRef::Owned(TypeId::Class(thing)));
    assert_eq!(of(&mut db, MethodKind::Extern, heap, ins), TypeRef::Unknown);
    assert_eq!(of(&mut db, MethodKind::Async, heap, ins), TypeRef::Ref(rec));
    assert_eq!(of(&mut db, MethodKind::AsyncMutable, heap, ins), TypeRef::Mut(rec));
    assert_eq!(of(&mut db, MethodKind::Mutable, TypeRef::integer(), ins), TypeRef::Owned(rec));

    let proc = ClassInstance::new(process);
    let proc_rec = TypeRef::Owned(TypeId::ClassInstance(proc));

    assert_eq!(
        of(&mut db, MethodKind::Instance, proc_rec, proc),
        TypeRef::Ref(TypeId::ClassInstance(proc))
    );

    let on_class = method(&mut db, "new", MethodKind::Static);
    let on_instance = method(&mut db, "get", MethodKind::Instance);
    let foreign = method(&mut db, "malloc", MethodKind::Extern);

    on_class.set_receiver(&mut db, TypeRef::Owned(TypeId::Class(thing)));
    on_instance.set_receiver(&mut db, heap);

    assert_eq!(Receiver::without_receiver(&db, on_class), Receiver::Class);
    assert_eq!(Receiver::without_receiver(&db, on_instance), Receiver::Implicit);
    assert_eq!(Receiver::without_receiver(&db, foreign), Receiver::Extern);
    assert_eq!(Receiver::with_receiver(&db, heap, on_instance), Receiver::Explicit);
    assert_eq!(
        Receiver::with_receiver(&db, TypeRef::Owned(TypeId::Class(thing)), on_class),
        Receiver::Class
    );
    assert_eq!(Receiver::with_receiver(&db, heap, foreign), Receiver::Extern);
    assert_eq!(Receiver::with_module(&db, on_class), Receiver::Class);
    assert_eq!(Receiver::with_module(&db, foreign), Receiver::Extern);
    assert!(Receiver::Explicit.is_explicit());
    assert!(!Receiver::Class.is_explicit());
    assert_eq!(on_instance.receiver_id(&db), rec);
}

#[test]
fn method_arguments_are_numbered_as_they_are_added() {
    let mut db = Database::new();
    let id = method(&mut db, "call", MethodKind::Instance);
    let a = id.new_argument(
        &mut db,
        "a".to_string(),
        TypeRef::integer(),
        TypeRef::float(),
        Location::default(),
    );
    let b = id.new_argument(
        &mut db,
        "b".to_string(),
        TypeRef::string(),
        TypeRef::nil(),
        Location::default(),
    );

    assert_eq!((a, b), (VariableId(0), VariableId(1)));
    assert_eq!(a.value_type(&db), TypeRef::integer());
    assert_eq!(a.name(&db), "a");
    assert!(!a.is_mutable(&db));
    assert_eq!(id.number_of_arguments(&db), 2);
    assert_eq!(id.named_argument(&db, "b"), Some((1, TypeRef::nil())));
    assert_eq!(id.named_argument(&db, "c"), None);
    assert_eq!(id.positional_argument_input_type(&db, 0), Some(TypeRef::float()));
    assert_eq!(id.positional_argument_input_type(&db, 2), None);
    assert_eq!(id.argument_types(&db), vec![TypeRef::float(), TypeRef::nil()]);

    let arguments = id.arguments(&db);

    assert_eq!(arguments.len(), 2);
    assert_eq!(arguments[1].index, 1);
    assert_eq!(arguments[1].name, "b");
    assert_eq!(arguments[1].variable, b);

    id.update_argument_types(&mut db, 0, TypeRef::boolean(), TypeRef::Never);
    assert_eq!(id.positional_argument_input_type(&db, 0), Some(TypeRef::Never));
    assert_eq!(a.value_type(&db), TypeRef::boolean());
    assert_eq!(b.value_type(&db), TypeRef::string());

    id.add_argument(
        &mut db,
        Argument { index: 9, name: "c".to_string(), value_type: TypeRef::Error, variable: a },
    );
    assert_eq!(id.named_argument(&db, "c"), Some((2, TypeRef::Error)));
}

#[test]
fn closure_arguments_and_captures() {
    let mut db = Database::new();
    let id = Closure::allocate(&mut db, true);
    let var = Variable::allocate(&mut db, "x".to_string(), TypeRef::integer(), true, Location::default());

    id.new_anonymous_argument(&mut db, TypeRef::integer());
    id.new_anonymous_argument(&mut db, TypeRef::float());

    let named = id.new_argument(
        &mut db,
        "named".to_string(),
        TypeRef::nil(),
        TypeRef::string(),
        Location::default(),
    );
    let arguments = id.arguments(&db);

    assert_eq!(arguments.len(), 3);
    assert_eq!(arguments[0].name, "_arg0");
    assert_eq!(arguments[1].name, "_arg1");
    assert_eq!(arguments[1].index, 1);
    assert_eq!(arguments[1].variable, VariableId(0));
    assert_eq!(arguments[2].name, "named");
    assert_eq!(arguments[2].variable, named);
    assert_eq!(id.number_of_arguments(&db), 3);
    assert_eq!(id.positional_argument_input_type(&db, 1), Some(TypeRef::float()));
    assert_eq!(id.positional_argument_input_type(&db, 3), None);
    assert!(id.add_anonymous_argument(&mut db, TypeRef::nil()));
    assert_eq!(id.arguments(&db)[3].name, "_arg3");
    assert!(id.is_moving(&db));
    assert!(var.is_mutable(&db));

    id.add_capture(&mut db, var, TypeRef::integer());
    id.add_capture(&mut db, var, TypeRef::integer());
    id.add_capture(&mut db, var, TypeRef::float());
    assert_eq!(id.captured(&db), vec![(var, TypeRef::integer()), (var, TypeRef::float())]);

    assert_eq!(id.captured_self_type(&db), None);
    assert!(id.can_infer_as_uni(&db));
    id.set_captured_self_type(&mut db, TypeRef::integer());
    assert!(id.can_infer_as_uni(&db));
    id.set_captured_self_type(&mut db, TypeRef::string());
    assert!(!id.can_infer_as_uni(&db));

    assert_eq!(id.return_type(&db), TypeRef::Unknown);
    id.set_return_type(&mut db, TypeRef::Never);
    assert_eq!(id.return_type(&db), TypeRef::Never);

    let clashing = Closure::allocate(&mut db, false);

    clashing.new_argument(
        &mut db,
        "_arg1".to_string(),
        TypeRef::nil(),
        TypeRef::nil(),
        Location::default(),
    );
    assert!(!clashing.add_anonymous_argument(&mut db, TypeRef::nil()));
    assert_eq!(clashing.number_of_arguments(&db), 1);
}

#[test]
fn copies_of_methods() {
    let mut db = Database::new();
    let home = Module::allocate(&mut db, ModuleName::new("home"), "a.inko".into());
    let away = Module::allocate(&mut db, ModuleName::new("away"), "b.inko".into());
    let source = Method::allocate(
        &mut db,
        home,
        Location::new(1, 2, 3, 4),
        "source".to_string(),
        Visibility::Private,
        MethodKind::Mutable,
    );
    let param = source.new_type_parameter(&mut db, "T".to_string());

    source.new_argument(
        &mut db,
        "a".to_string(),
        TypeRef::integer(),
        TypeRef::float(),
        Location::default(),
    );
    source.set_return_type(&mut db, TypeRef::string());
    source.set_field_type(&mut db, "field".to_string(), FieldId(0), TypeRef::nil());
    source.set_documentation(&mut db, "Documented.".to_string());
    source.set_main(&mut db);
    source.set_variadic(&mut db);
    source.always_inline(&mut db);
    source.set_shapes(&mut db, vec![Shape::Owned, Shape::integer()]);
    source.add_specialization(&mut db, vec![Shape::Owned], MethodId(7));
    source.add_specialization(&mut db, vec![Shape::Ref, Shape::Mut], MethodId(8));

    let copy = source.copy_method(&mut db, away);

    assert_eq!(copy, MethodId(1));
    assert_eq!(copy.module(&db), away);
    assert_eq!(source.module(&db), home);
    assert_eq!(copy.name(&db), "source");
    assert_eq!(copy.location(&db), Location::new(1, 2, 3, 4));
    assert_eq!(copy.kind(&db), MethodKind::Mutable);
    assert!(copy.is_private(&db));
    assert_eq!(copy.type_parameters(&db), vec![param]);
    assert_eq!(copy.named_type(&db, "T"), Some(Symbol::TypeParameter(param)));
    assert_eq!(copy.named_argument(&db, "a"), Some((0, TypeRef::float())));
    assert_eq!(copy.return_type(&db), TypeRef::string());
    assert_eq!(copy.field_id_and_type(&db, "field"), Some((FieldId(0), TypeRef::nil())));
    assert_eq!(copy.fields(&db), vec![(FieldId(0), TypeRef::nil())]);
    assert_eq!(copy.documentation(&db), "Documented.");
    assert!(copy.is_main(&db));
    assert!(copy.is_variadic(&db));
    assert!(copy.is_generic(&db));
    assert_eq!(copy.inline(&db), Inline::Always);
    assert_eq!(copy.shapes(&db), &vec![Shape::Owned, Shape::integer()]);
    assert_eq!(copy.specialization(&db, &[Shape::Owned]), Some(MethodId(7)));
    assert_eq!(copy.specialization(&db, &[Shape::Ref, Shape::Mut]), Some(MethodId(8)));
    assert_eq!(copy.specialization(&db, &[Shape::Ref]), None);
    assert_eq!(copy.specializations(&db), vec![MethodId(7), MethodId(8)]);

    let special = source.clone_for_specialization(&mut db);

    assert_eq!(special, MethodId(2));
    assert_eq!(special.name(&db), "source");
    assert_eq!(special.module(&db), home);
    assert_eq!(special.inline(&db), Inline::Always);
    assert!(!special.is_generic(&db));
    assert_eq!(special.number_of_arguments(&db), 0);
    assert_eq!(special.return_type(&db), TypeRef::Unknown);
    assert_eq!(db.number_of_methods(), 3);
}

#[test]
fn methods_document_and_return() {
    let mut db = Database::new();
    let home = Module::allocate(&mut db, ModuleName::new("home"), "a.inko".into());
    let show = Trait::allocate(&mut db, "Show".to_string(), Visibility::Public, home, Location::default());
    let default = method(&mut db, "show", MethodKind::Instance);
    let inherited = method(&mut db, "show", MethodKind::Instance);
    let implemented = method(&mut db, "show", MethodKind::Instance);
    let generated = method(&mut db, "$dropper", MethodKind::Mutable);

    default.set_documentation(&mut db, "Shows the value.".to_string());
    inherited.set_source(&mut db, MethodSource::Inherited(TraitInstance::new(show), default));
    implemented.set_source(&mut db, MethodSource::Implemented(TraitInstance::new(show), default));
    implemented.set_documentation(&mut db, "Shows this value.".to_string());

    assert_eq!(default.documentation(&db), "Shows the value.");
    assert_eq!(inherited.documentation(&db), "Shows the value.");
    assert_eq!(implemented.documentation(&db), "Shows this value.");
    assert_eq!(generated.documentation(&db), "");
    assert_eq!(inherited.original_method(&db), Some(default));
    assert_eq!(default.original_method(&db), None);
    assert_eq!(inherited.implemented_trait_instance(&db), Some(TraitInstance::new(show)));
    assert_eq!(inherited.source_module(&db), home);
    assert_eq!(implemented.source_module(&db), ModuleId(0));
    assert!(generated.is_generated(&db));
    assert!(!default.is_generated(&db));

    let foreign = method(&mut db, "exit", MethodKind::Extern);

    assert!(default.has_return_type(&db));
    assert!(default.returns_value(&db));
    assert!(foreign.has_return_type(&db));
    foreign.set_return_type(&mut db, TypeRef::nil());
    assert!(!foreign.has_return_type(&db));
    assert!(!foreign.returns_value(&db));
    assert!(foreign.ignore_return_value(&db));
    default.set_return_type(&mut db, TypeRef::nil());
    assert!(default.has_return_type(&db));
    assert!(default.returns_value(&db));
    default.set_return_type(&mut db, TypeRef::Never);
    assert!(!default.returns_value(&db));
    assert!(!default.ignore_return_value(&db));
    default.use_c_calling_convention(&mut db);
    assert!(default.uses_c_calling_convention(&db));
}

#[test]
fn type_arguments_merge() {
    let a = TypeParameterId(3);
    let b = TypeParameterId(1);
    let c = TypeParameterId(2);
    let mut first = TypeArguments::new();
    let mut second = TypeArguments::new();

    assert!(first.is_empty());
    first.assign(a, TypeRef::integer());
    first.assign(b, TypeRef::float());
    second.assign(b, TypeRef::string());
    second.assign(c, TypeRef::nil());

    assert_eq!(first.pairs(), vec![(b, TypeRef::float()), (a, TypeRef::integer())]);
    assert_eq!(first.keys(), vec![b, a]);
    assert_eq!(first.iter(), first.pairs());

    let mut merged = first.duplicate();

    second.copy_into(&mut merged);
    assert_eq!(
        merged.pairs(),
        vec![(b, TypeRef::string()), (c, TypeRef::nil()), (a, TypeRef::integer())]
    );
    assert_eq!(first.get(b), Some(TypeRef::float()));

    let mut moved = TypeArguments::new();

    moved.assign(c, TypeRef::boolean());
    first.duplicate().move_into(&mut moved);
    assert_eq!(
        moved.pairs(),
        vec![(b, TypeRef::float()), (c, TypeRef::boolean()), (a, TypeRef::integer())]
    );

    let mut picked = TypeArguments::new();

    picked.assign(b, TypeRef::Never);
    merged.copy_assigned_into(vec![a, TypeParameterId(9), c], &mut picked);
    assert_eq!(
        picked.pairs(),
        vec![(b, TypeRef::Never), (c, TypeRef::nil()), (a, TypeRef::integer())]
    );

    for value in picked.values_mut().iter_mut() {
        *value = TypeRef::Error;
    }
    assert_eq!(picked.get(c), Some(TypeRef::Error));

    let mut same = TypeArguments::new();

    same.assign(b, TypeRef::float());
    same.assign(a, TypeRef::integer());
    assert_eq!(same, first);
    assert_ne!(same, second);
}

#[test]
fn type_bounds() {
    let mut db = Database::new();
    let plain = TypeParameter::allocate(&mut db, "A".to_string());
    let changing = TypeParameter::allocate(&mut db, "B".to_string());
    let original = TypeParameter::allocate(&mut db, "C".to_string());

    changing.set_mutable(&mut db);
    changing.set_stack_allocated(&mut db);
    changing.set_original(&mut db, original);
    assert_eq!(changing.original(&db), Some(original));
    assert!(!changing.has_requirements(&db));

    let mut bounds = TypeBounds::new();
    let mut more = TypeBounds::new();

    assert!(bounds.is_empty());
    bounds.set(TypeParameterId(7), changing);
    bounds.set(TypeParameterId(5), plain);
    more.set(TypeParameterId(5), original);
    more.set(TypeParameterId(6), plain);

    assert_eq!(bounds.get(TypeParameterId(7)), Some(changing));
    assert_eq!(bounds.get(TypeParameterId(6)), None);
    assert_eq!(
        bounds.iter(),
        vec![(TypeParameterId(5), plain), (TypeParameterId(7), changing)]
    );
    assert_eq!(
        bounds.union(&more).iter(),
        vec![
            (TypeParameterId(5), original),
            (TypeParameterId(6), plain),
            (TypeParameterId(7), changing)
        ]
    );

    bounds.make_immutable(&mut db);

    let copy = TypeParameterId(3);

    assert_eq!(bounds.iter(), vec![(TypeParameterId(5), plain), (TypeParameterId(7), copy)]);
    assert_eq!(db.type_parameters.len(), 4);
    assert!(!copy.is_mutable(&db));
    assert!(copy.is_stack_allocated(&db));
    assert_eq!(copy.name(&db), "B");
    assert_eq!(copy.original(&db), Some(original));
    assert!(changing.is_mutable(&db));

    let bound = plain.clone_for_bound(&mut db);
    let frozen = changing.as_immutable(&mut db);

    assert_eq!(bound.original(&db), Some(plain));
    assert_eq!((bound, frozen), (TypeParameterId(4), TypeParameterId(5)));
    assert!(!frozen.is_mutable(&db));
    assert_eq!(plain.as_rigid(), TypeRef::Any(TypeId::RigidTypeParameter(plain)));

    for value in more.values_mut().iter_mut() {
        *value = frozen;
    }
    assert_eq!(more.get(TypeParameterId(6)), Some(frozen));
}

#[test]
fn instances_and_their_arguments() {
    let mut db = Database::new();
    let pair = class_of_kind(&mut db, "Pair", ClassKind::Regular);
    let plain = class_of_kind(&mut db, "Plain", ClassKind::Regular);
    let a = pair.new_type_parameter(&mut db, "A".to_string());
    let b = pair.new_type_parameter(&mut db, "B".to_string());

    assert!(pair.is_generic(&db));
    assert!(!plain.is_generic(&db));
    assert_eq!(pair.number_of_type_parameters(&db), 2);
    assert!(pair.type_parameter_exists(&db, "B"));
    assert!(!pair.type_parameter_exists(&db, "C"));
    assert_eq!(pair.type_parameter(&db, "B"), Some(b));
    assert_eq!(pair.named_type(&db, "A"), Some(Symbol::TypeParameter(a)));

    let partly = ClassInstance::with_types(&mut db, pair, vec![TypeRef::integer()]);
    let placeholder = TypePlaceholder::allocate(&mut db, None);

    assert_eq!(placeholder.id, 1);
    assert_eq!(partly.type_arguments, 0);
    assert_eq!(partly.instance_of(), pair);
    assert_eq!(
        partly.ordered_type_arguments(&db),
        vec![
            TypeRef::integer(),
            TypeRef::Placeholder(types::type_ref::TypePlaceholderId {
                id: 0,
                ownership: types::type_ref::Ownership::Any
            })
        ]
    );
    assert_eq!(db.type_placeholders[0].required, Some(b));

    let empty = ClassInstance::empty(&mut db, pair);

    assert_eq!(empty.type_arguments, 1);
    assert_eq!(db.type_placeholders.len(), 4);
    assert_eq!(db.type_placeholders[2].required, Some(a));
    assert_eq!(db.type_placeholders[3].required, Some(b));
    assert_eq!(ClassInstance::empty(&mut db, plain), ClassInstance::new(plain));
    assert_eq!(db.type_arguments.len(), 2);

    let mut bounds = TypeBounds::new();

    bounds.set(a, TypeParameterId(9));

    let rigid = ClassInstance::rigid(&mut db, pair, &bounds);

    assert_eq!(rigid.type_arguments, 2);
    assert_eq!(
        rigid.type_arguments(&db).unwrap().pairs(),
        vec![
            (a, TypeRef::Any(TypeId::RigidTypeParameter(TypeParameterId(9)))),
            (b, TypeRef::Any(TypeId::RigidTypeParameter(b)))
        ]
    );
    assert_eq!(ClassInstance::rigid(&mut db, plain, &bounds), ClassInstance::new(plain));
    assert_eq!(TypeArguments::for_class(&db, rigid).get(b), Some(b.as_rigid()));
    assert!(TypeArguments::for_class(&db, ClassInstance::new(plain)).is_empty());
    assert_eq!(
        TypeRef::Ref(TypeId::ClassInstance(rigid)).type_arguments(&db),
        TypeArguments::for_class(&db, rigid)
    );
    assert!(TypeRef::integer().type_arguments(&db).is_empty());
    assert!(!TypeRef::Owned(TypeId::ClassInstance(partly)).is_inferred(&db));
    assert!(TypeRef::Owned(TypeId::ClassInstance(rigid)).is_inferred(&db));
    assert!(TypeRef::Owned(instance(plain)).is_inferred(&db));
    assert!(!TypeRef::Placeholder(placeholder).is_inferred(&db));

    db.compact();
    assert!(db.type_arguments.is_empty());
    assert!(rigid.type_arguments(&db).is_none());
    assert_eq!(db.type_placeholders.len(), 4);
    assert_eq!(db.number_of_classes(), 18);
}

#[test]
fn trait_instances_and_implementations() {
    let mut db = Database::new();
    let class = class_of_kind(&mut db, "Thing", ClassKind::Regular);
    let show = Trait::allocate(&mut db, "Show".to_string(), Visibility::Private, ModuleId(0), Location::default());
    let into = Trait::allocate(&mut db, "Into".to_string(), Visibility::Public, ModuleId(0), Location::default());
    let param = into.new_type_parameter(&mut db, "T".to_string());

    assert_eq!(db.number_of_traits(), 2);
    assert!(show.is_private(&db));
    assert!(into.is_public(&db));
    assert!(into.is_generic(&db));
    assert_eq!(into.number_of_type_parameters(&db), 1);
    assert!(into.type_parameter_exists(&db, "T"));
    assert_eq!(into.named_type(&db, "T"), Some(Symbol::TypeParameter(param)));
    assert_eq!(show.name(&db), "Show");

    let mut targs = TypeArguments::new();

    targs.assign(param, TypeRef::integer());

    let stated = TraitInstance::generic(&mut db, into, targs);
    let rigid = TraitInstance::rigid(&mut db, into, &TypeBounds::new());

    assert_eq!(stated.instance_of(), into);
    assert_eq!(rigid.type_arguments(&db).unwrap().get(param), Some(param.as_rigid()));
    assert_eq!(TraitInstance::rigid(&mut db, show, &TypeBounds::new()), TraitInstance::new(show));
    assert_eq!(TypeArguments::for_trait(&db, stated).get(param), Some(TypeRef::integer()));
    assert!(TypeArguments::for_trait(&db, TraitInstance::new(show)).is_empty());

    let mut from = TypeArguments::new();
    let mut into_args = TypeArguments::new();

    from.assign(param, TypeRef::float());
    from.assign(TypeParameterId(9), TypeRef::nil());
    rigid.copy_new_arguments_from(&mut db, &from);
    assert_eq!(rigid.type_arguments(&db).unwrap().pairs(), vec![(param, TypeRef::float())]);
    stated.copy_type_arguments_into(&db, &mut into_args);
    assert_eq!(into_args.pairs(), vec![(param, TypeRef::integer())]);
    TraitInstance::new(show).copy_type_arguments_into(&db, &mut into_args);
    assert_eq!(into_args.pairs(), vec![(param, TypeRef::integer())]);

    class.add_trait_implementation(
        &mut db,
        TraitImplementation { instance: stated, bounds: TypeBounds::new() },
    );
    class.add_trait_implementation(
        &mut db,
        TraitImplementation { instance: TraitInstance::new(show), bounds: TypeBounds::new() },
    );

    assert_eq!(class.trait_implementation(&db, into).map(|i| i.instance), Some(stated));
    assert!(class.trait_implementation(&db, types::type_ref::TraitId(5)).is_none());
    assert_eq!(
        class.implemented_traits(&db).iter().map(|i| i.instance).collect::<Vec<_>>(),
        vec![TraitInstance::new(show), stated]
    );
    assert_eq!(into.implemented_by(&db), &vec![class]);
    assert!(TypeRef::Ref(TypeId::TraitInstance(stated)).is_trait_instance(&db));
    assert_eq!(TypeRef::Ref(TypeId::TraitInstance(stated)).as_trait_instance(&db), Some(stated));
    assert!(TypeId::TraitInstance(stated).use_dynamic_dispatch());
    assert!(!TypeId::Trait(into).use_dynamic_dispatch());
}

#[test]
fn throw_kinds() {
    let mut db = Database::new();
    let options = Module::allocate(&mut db, ModuleName::new(OPTION_MODULE), "option.inko".into());
    let results = Module::allocate(&mut db, ModuleName::new(RESULT_MODULE), "result.inko".into());
    let option = class_of_kind(&mut db, OPTION_CLASS, ClassKind::Enum);
    let result = class_of_kind(&mut db, RESULT_CLASS, ClassKind::Enum);
    let thing = class_of_kind(&mut db, "Thing", ClassKind::Regular);

    option.new_type_parameter(&mut db, "T".to_string());
    result.new_type_parameter(&mut db, "T".to_string());
    result.new_type_parameter(&mut db, "E".to_string());
    options.new_symbol(&mut db, OPTION_CLASS.to_string(), Symbol::Class(option));
    results.new_symbol(&mut db, RESULT_CLASS.to_string(), Symbol::Class(result));

    assert_eq!(db.class_in_module(OPTION_MODULE, OPTION_CLASS), option);

    let some = TypeRef::option_type(&mut db, TypeRef::integer());
    let failing = TypeRef::result_type(&mut db, TypeRef::float(), TypeRef::Owned(instance(thing)));
    let unresolved = TypePlaceholder::allocate(&mut db, None);
    let resolved = TypePlaceholder::allocate(&mut db, None);

    resolved.assign(&mut db, some);

    assert_eq!(some.class_id(&db), Some(option));
    assert_eq!(some.throw_kind(&db), ThrowKind::Option(TypeRef::integer()));
    assert_eq!(
        failing.as_ref(&db).throw_kind(&db),
        ThrowKind::Result(TypeRef::float(), TypeRef::Owned(instance(thing)))
    );
    assert_eq!(TypeRef::Owned(instance(thing)).throw_kind(&db), ThrowKind::Unknown);
    assert_eq!(TypeRef::Never.throw_kind(&db), ThrowKind::Unknown);
    assert_eq!(TypeRef::Placeholder(unresolved).throw_kind(&db), ThrowKind::Infer(unresolved));
    assert_eq!(
        TypeRef::Placeholder(resolved).throw_kind(&db),
        ThrowKind::Option(TypeRef::integer())
    );
    assert_eq!(
        failing.throw_kind(&db).as_uni(&db),
        ThrowKind::Result(TypeRef::float(), TypeRef::Uni(instance(thing)))
    );
    assert_eq!(
        ThrowKind::Result(TypeRef::float(), TypeRef::Ref(instance(thing))).as_uni(&db),
        ThrowKind::Result(TypeRef::float(), TypeRef::Ref(instance(thing)))
    );
    assert_eq!(
        ThrowKind::Option(TypeRef::integer()).as_uni(&db),
        ThrowKind::Option(TypeRef::integer())
    );
    assert!(some.as_enum_instance(&db).is_some());
    assert!(TypeRef::Placeholder(resolved).as_enum_instance(&db).is_none());
}

#[test]
fn main_entities() {
    let mut db = Database::new();

    assert_eq!(db.main_module(), None);
    assert_eq!(db.main_method(), None);
    assert_eq!(db.main_class(), None);
    db.set_main_module(ModuleName::new("main"));
    db.set_main_method(MethodId(3));
    db.set_main_class(ClassId(4));
    assert_eq!(db.main_module(), Some(&ModuleName::new("main")));
    assert_eq!(db.main_method(), Some(MethodId(3)));
    assert_eq!(db.main_class(), Some(ClassId(4)));
}

#[test]
fn instructions_and_processes() {
    let instruction = Instruction::new(InstructionType::SetLocal, vec![1, 2], 10, 4);

    assert_eq!(instruction.instruction_type, InstructionType::SetLocal);
    assert_eq!(instruction.arguments, vec![1, 2]);
    assert_eq!((instruction.line, instruction.column), (10, 4));

    assert!(ProcessStatus::Running.is_running());
    assert!(!ProcessStatus::Scheduled.is_running());
    assert!(ProcessStatus::Scheduled.available_for_execution());
    assert!(ProcessStatus::WaitingForMessage.is_waiting_for_message());
    assert_eq!(ProcessStatus::Scheduled.status_integer(), 0);
    assert_eq!(ProcessStatus::SuspendForGc.status_integer(), 3);
    assert_eq!(ProcessStatus::Finished.status_integer(), 5);

    let mut data = LocalData::new(2);

    data.update_collection_statistics(false);
    assert_eq!((data.young_collections, data.mature_collections), (1, 0));
    data.update_collection_statistics(true);
    assert_eq!((data.young_collections, data.mature_collections), (1, 1));
    data.update_mailbox_collection_statistics();
    assert_eq!(data.mailbox_collections, 1);
    assert_eq!(data.pool_id, 2);
}
