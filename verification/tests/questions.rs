use types::database::{Class, Closure, Database, TypeParameter, TypePlaceholder};
use types::kinds::{ClassKind, Visibility};
use types::location::Location;
use types::type_ref::{
    ClassId, ClassInstance, ForeignType, ModuleId, Shape, Sign, TypeId, TypeRef,
};

fn class_of_kind(db: &mut Database, name: &str, kind: ClassKind) -> ClassId {
    Class::allocate(db, name.to_string(), kind, Visibility::Public, ModuleId(0),
        Location::default())
}

fn instance(class: ClassId) -> TypeId {
    TypeId::ClassInstance(ClassInstance::new(class))
}

#[test]
fn plain_constructors() {
    assert_eq!(TypeRef::nil(), TypeRef::Owned(instance(ClassId(5))));
    assert_eq!(TypeRef::boolean(), TypeRef::Owned(instance(ClassId(4))));
    assert_eq!(TypeRef::integer(), TypeRef::Owned(instance(ClassId(2))));
    assert_eq!(TypeRef::float(), TypeRef::Owned(instance(ClassId(3))));
    assert_eq!(TypeRef::string(), TypeRef::Owned(instance(ClassId(0))));
    assert_eq!(TypeRef::byte_array(), TypeRef::Owned(instance(ClassId(1))));
    assert_eq!(TypeRef::int_with_sign(64, Sign::Signed), TypeRef::integer());
    assert_eq!(
        TypeRef::int_with_sign(32, Sign::Signed),
        TypeRef::Owned(TypeId::Foreign(ForeignType::Int(32, Sign::Signed)))
    );
    assert_eq!(
        TypeRef::int_with_sign(64, Sign::Unsigned),
        TypeRef::Owned(TypeId::Foreign(ForeignType::Int(64, Sign::Unsigned)))
    );
    assert_eq!(TypeRef::float_with_size(64), TypeRef::float());
    assert_eq!(
        TypeRef::float_with_size(32),
        TypeRef::Owned(TypeId::Foreign(ForeignType::Float(32)))
    );
    assert_eq!(TypeRef::foreign_signed_int(8), TypeRef::int_with_sign(8, Sign::Signed));
    assert_eq!(TypeRef::foreign_unsigned_int(8), TypeRef::int_with_sign(8, Sign::Unsigned));
    assert_eq!(TypeRef::foreign_float(16), TypeRef::float_with_size(16));
    assert_eq!(TypeRef::pointer(instance(ClassId(2))), TypeRef::Pointer(instance(ClassId(2))));
    assert_eq!(TypeRef::module(ModuleId(3)), TypeRef::Owned(TypeId::Module(ModuleId(3))));
    assert!(Sign::Signed.is_signed());
    assert!(!Sign::Unsigned.is_signed());
    assert_eq!(Shape::integer(), Shape::Int(64, Sign::Signed));
    assert_eq!(Shape::float(), Shape::Float(64));
    assert!(!Shape::integer().is_foreign());
    assert!(Shape::Int(32, Sign::Signed).is_foreign());
    assert!(Shape::Int(64, Sign::Unsigned).is_foreign());
    assert!(Shape::Float(32).is_foreign());
    assert!(!Shape::Float(64).is_foreign());
    assert!(!Shape::Pointer.is_foreign());
    assert!(ClassKind::Regular.allow_pattern_matching());
    assert!(ClassKind::Extern.allow_pattern_matching());
    assert!(!ClassKind::Enum.allow_pattern_matching());
    assert!(ClassKind::Enum.is_enum());
    assert!(ClassKind::Tuple.is_tuple());
    assert!(ClassKind::Module.is_module());
    assert!(ClassKind::Atomic.is_atomic());
    assert!(ClassKind::Async.is_atomic());
    assert!(!ClassKind::Regular.is_atomic());
}

#[test]
fn rigid_type_parameters() {
    let mut db = Database::new();
    let param = TypeParameter::allocate(&mut db, "T".to_string());
    let plain = TypeId::TypeParameter(param);
    let rigid = TypeId::RigidTypeParameter(param);

    assert_eq!(TypeRef::Owned(plain).as_rigid_type_parameter(), TypeRef::Owned(rigid));
    assert_eq!(TypeRef::Any(plain).as_rigid_type_parameter(), TypeRef::Any(rigid));
    assert_eq!(TypeRef::UniMut(plain).as_rigid_type_parameter(), TypeRef::UniMut(rigid));
    assert_eq!(TypeRef::Pointer(plain).as_rigid_type_parameter(), TypeRef::Pointer(plain));
    assert_eq!(TypeRef::Ref(rigid).as_rigid_type_parameter(), TypeRef::Ref(rigid));
    assert_eq!(TypeRef::integer().as_rigid_type_parameter(), TypeRef::integer());
    assert_eq!(plain.as_type_for_pointer(), TypeRef::Any(plain));
    assert_eq!(rigid.as_type_for_pointer(), TypeRef::Any(rigid));
    assert_eq!(instance(ClassId(2)).as_type_for_pointer(), TypeRef::integer());
    assert_eq!(
        TypeId::AtomicTypeParameter(param).as_type_for_pointer(),
        TypeRef::Owned(TypeId::AtomicTypeParameter(param))
    );
    assert!(TypeRef::Owned(rigid).is_rigid_type_parameter(&db));
    assert!(TypeRef::Pointer(rigid).is_rigid_type_parameter(&db));
    assert!(!TypeRef::Owned(plain).is_rigid_type_parameter(&db));
    assert!(TypeRef::UniRef(plain).is_type_parameter(&db));
    assert!(TypeRef::Ref(TypeId::AtomicTypeParameter(param)).is_type_parameter(&db));
    assert!(!TypeRef::Pointer(plain).is_type_parameter(&db));
    assert_eq!(TypeRef::Mut(plain).as_type_parameter(&db), Some(param));
    assert_eq!(TypeRef::UniRef(plain).as_type_parameter(&db), None);
    assert_eq!(TypeRef::UniRef(rigid).as_type_parameter(&db), Some(param));
    assert_eq!(TypeRef::Owned(TypeId::AtomicTypeParameter(param)).as_type_parameter(&db), None);
}

#[test]
fn questions_look_into_placeholders() {
    let mut db = Database::new();
    let thing = class_of_kind(&mut db, "Thing", ClassKind::Regular);
    let empty = TypeRef::Placeholder(TypePlaceholder::allocate(&mut db, None));
    let of = |db: &mut Database, typ| {
        let id = TypePlaceholder::allocate(db, None);

        id.assign(db, typ);
        TypeRef::Placeholder(id)
    };
    let never = of(&mut db, TypeRef::Never);
    let error = of(&mut db, TypeRef::Error);
    let borrowed = of(&mut db, TypeRef::Ref(instance(thing)));
    let changing = of(&mut db, TypeRef::Mut(instance(thing)));
    let unique = of(&mut db, TypeRef::Uni(instance(thing)));
    let number = of(&mut db, TypeRef::integer());
    let raw = of(&mut db, TypeRef::Pointer(instance(thing)));

    assert!(never.is_never(&db));
    assert!(!empty.is_never(&db));
    assert!(error.is_error(&db));
    assert!(!never.is_present(&db));
    assert!(!empty.is_present(&db));
    assert!(borrowed.is_present(&db));
    assert!(TypeRef::Unknown.is_present(&db));
    assert!(borrowed.is_ref(&db));
    assert!(borrowed.is_mut(&db));
    assert!(!changing.is_mut(&db));
    assert!(TypeRef::Mut(instance(thing)).is_mut(&db));
    assert!(changing.is_ref_or_mut(&db));
    assert!(unique.is_uni(&db));
    assert!(unique.is_owned_or_uni(&db));
    assert!(unique.require_sendable_arguments(&db));
    assert!(borrowed.is_sendable_ref(&db));
    assert!(changing.use_reference_counting(&db));
    assert!(!number.use_reference_counting(&db));
    assert!(number.is_owned(&db));
    assert!(number.is_int(&db));
    assert!(!number.is_bool(&db));
    assert!(TypeRef::boolean().is_bool(&db));
    assert!(TypeRef::nil().is_nil(&db));
    assert!(TypeRef::string().as_ref(&db).is_string(&db));
    assert!(TypeRef::string().use_atomic_reference_counting(&db));
    assert!(!number.use_atomic_reference_counting(&db));
    assert!(number.is_value_type(&db));
    assert!(number.is_stack_allocated(&db));
    assert!(number.is_signed_int(&db));
    assert!(TypeRef::foreign_signed_int(8).is_signed_int(&db));
    assert!(!TypeRef::foreign_unsigned_int(8).is_signed_int(&db));
    assert!(!empty.is_signed_int(&db));
    assert!(raw.is_pointer(&db));
    assert!(raw.is_foreign_type(&db));
    assert!(raw.has_ownership(&db));
    assert!(!empty.has_ownership(&db));
    assert!(!TypeRef::UniRef(instance(thing)).has_ownership(&db));
    assert!(empty.allow_in_array(&db));
    assert!(!raw.allow_in_array(&db));
    assert!(!TypeRef::UniMut(instance(thing)).allow_in_array(&db));
    assert!(!TypeRef::foreign_float(32).allow_in_array(&db));
    assert!(borrowed.allow_in_array(&db));
    assert!(TypeRef::UniRef(instance(thing)).is_uni_ref(&db));
    assert!(!empty.allow_as_ref(&db));
    assert!(error.allow_as_ref(&db));
    assert!(TypeRef::Error.is_stack_allocated(&db));
    assert!(!TypeRef::Never.is_stack_allocated(&db));
    assert_eq!(borrowed.class_id(&db), Some(thing));
    assert_eq!(raw.class_id(&db), Some(thing));
    assert_eq!(empty.class_id(&db), None);
    assert_eq!(TypeRef::Any(instance(thing)).class_id(&db), None);
    assert_eq!(borrowed.as_class_instance(&db), Some(ClassInstance::new(thing)));
    assert_eq!(borrowed.as_class_instance_for_pattern_matching(&db),
        Some(ClassInstance::new(thing)));
    assert_eq!(raw.as_class_instance_for_pattern_matching(&db), None);
    assert_eq!(borrowed.type_id(&db), Ok(instance(thing)));
    assert_eq!(empty.type_id(&db), Err(empty));
    assert_eq!(never.type_id(&db), Err(TypeRef::Never));
    assert_eq!(TypeRef::Unknown.type_id(&db), Err(TypeRef::Unknown));
    assert_eq!(borrowed.resolve(&db), TypeRef::Ref(instance(thing)));
    assert_eq!(empty.resolve(&db), empty);
    assert!(TypeId::ClassInstance(ClassInstance::new(thing)).has_destructor(&db) == false);
    thing.mark_as_having_destructor(&mut db);
    assert!(instance(thing).has_destructor(&db));
    assert!(!TypeId::Class(thing).has_destructor(&db));
}

#[test]
fn casts_follow_the_other_type() {
    let mut db = Database::new();
    let thing = class_of_kind(&mut db, "Thing", ClassKind::Regular);
    let ext = class_of_kind(&mut db, "Ext", ClassKind::Extern);
    let heap = TypeRef::Owned(instance(thing));
    let number = TypeRef::integer();
    let foreign = TypeRef::Owned(instance(ext));

    assert_eq!(heap.cast_according_to(&db, TypeRef::Ref(instance(thing))),
        TypeRef::Ref(instance(thing)));
    assert_eq!(heap.cast_according_to(&db, TypeRef::Mut(instance(thing))),
        TypeRef::Mut(instance(thing)));
    assert_eq!(heap.cast_according_to(&db, TypeRef::Uni(instance(thing))), heap);
    assert_eq!(heap.cast_according_to(&db, TypeRef::Never), heap);
    assert_eq!(number.as_ref(&db).cast_according_to(&db, TypeRef::Mut(instance(thing))), number);
    assert_eq!(number.cast_according_to(&db, TypeRef::Uni(instance(thing))), number);
    assert_eq!(
        foreign.cast_according_to(&db, TypeRef::Ref(instance(thing))),
        TypeRef::Pointer(instance(ext))
    );
    assert_eq!(foreign.cast_according_to(&db, heap), foreign);
    assert_eq!(TypeRef::Ref(instance(thing)).value_type_as_owned(&db),
        TypeRef::Ref(instance(thing)));
    assert_eq!(TypeRef::Ref(instance(ClassId::string())).value_type_as_owned(&db),
        TypeRef::string());
    assert_eq!(TypeRef::Ref(instance(thing)).as_uni(&db), TypeRef::Uni(instance(thing)));
    assert_eq!(TypeRef::UniRef(instance(thing)).as_uni(&db), TypeRef::UniRef(instance(thing)));
    assert_eq!(number.as_uni(&db), number);
    assert_eq!(TypeRef::Never.as_owned(&db), TypeRef::Never);
    assert_eq!(TypeRef::Pointer(instance(thing)).as_owned(&db), TypeRef::Pointer(instance(thing)));
    assert_eq!(TypeRef::Any(instance(thing)).as_mut(&db), TypeRef::Any(instance(thing)));
    assert_eq!(TypeRef::Any(instance(thing)).force_as_mut(&db), TypeRef::Mut(instance(thing)));
    assert_eq!(TypeRef::Ref(instance(thing)).as_mut(&db), TypeRef::Ref(instance(thing)));
    assert_eq!(TypeRef::Ref(instance(thing)).force_as_mut(&db), TypeRef::Ref(instance(thing)));
    assert_eq!(TypeRef::Ref(instance(thing)).as_uni_mut(&db), TypeRef::UniRef(instance(thing)));
    assert_eq!(
        TypeRef::Ref(instance(thing)).force_as_uni_mut(&db),
        TypeRef::UniMut(instance(thing))
    );
    assert_eq!(
        TypeRef::UniRef(instance(thing)).force_as_uni_mut(&db),
        TypeRef::UniRef(instance(thing))
    );
}

#[test]
fn sendable_values() {
    let mut db = Database::new();
    let thing = class_of_kind(&mut db, "Thing", ClassKind::Regular);
    let wrapper = class_of_kind(&mut db, "Wrapper", ClassKind::Regular);
    let list = class_of_kind(&mut db, "List", ClassKind::Regular);
    let param = list.new_type_parameter(&mut db, "T".to_string());
    let add = |db: &mut Database, class: ClassId, name: &str, typ| {
        class.new_field(
            db,
            name.to_string(),
            0,
            typ,
            Visibility::Public,
            ModuleId(0),
            Location::default(),
        )
    };

    add(&mut db, thing, "a", TypeRef::integer());
    add(&mut db, thing, "b", TypeRef::string());
    add(&mut db, wrapper, "a", TypeRef::Owned(instance(thing)));
    add(&mut db, wrapper, "b", TypeRef::Ref(instance(thing)));

    let of_numbers = ClassInstance::with_types(&mut db, list, vec![TypeRef::integer()]);
    let of_borrows = ClassInstance::with_types(&mut db, list, vec![TypeRef::Mut(instance(thing))]);
    let unknown = TypePlaceholder::allocate(&mut db, Some(param));
    let free = Closure::allocate(&mut db, false);

    assert!(TypeRef::Uni(instance(thing)).is_sendable(&db));
    assert!(!TypeRef::Owned(instance(thing)).is_sendable(&db));
    assert!(TypeRef::integer().is_sendable(&db));
    assert!(TypeRef::Ref(instance(ClassId::string())).is_sendable(&db));
    assert!(TypeRef::Never.is_sendable(&db));
    assert!(TypeRef::Error.is_sendable(&db));
    assert!(TypeRef::Placeholder(unknown).is_sendable(&db));
    assert!(TypeRef::Owned(TypeId::Closure(free)).is_sendable(&db));
    assert!(!TypeRef::Mut(TypeId::Closure(free)).is_sendable(&db));
    assert_eq!(TypeRef::Owned(TypeId::Closure(free)).closure_id(&db), Some(free));
    assert_eq!(TypeRef::integer().closure_id(&db), None);

    assert!(TypeRef::Owned(instance(thing)).is_sendable_output(&db));
    assert!(!TypeRef::Owned(instance(wrapper)).is_sendable_output(&db));
    assert!(TypeRef::Owned(TypeId::ClassInstance(of_numbers)).is_sendable_output(&db));
    assert!(!TypeRef::Owned(TypeId::ClassInstance(of_borrows)).is_sendable_output(&db));
    assert!(!TypeRef::Ref(instance(thing)).is_sendable_output(&db));
    assert!(TypeRef::Uni(instance(wrapper)).is_sendable_output(&db));
    assert!(TypeRef::Placeholder(unknown).is_sendable_output(&db));

    assert!(TypeRef::Owned(TypeId::Closure(free)).is_inferred(&db));
    free.new_anonymous_argument(&mut db, TypeRef::Placeholder(unknown));
    assert!(!TypeRef::Owned(TypeId::Closure(free)).is_inferred(&db));
    unknown.assign(&mut db, TypeRef::integer());
    assert!(TypeRef::Owned(TypeId::Closure(free)).is_inferred(&db));
    let open = TypePlaceholder::allocate(&mut db, None);

    types::block::Block::set_return_type(&free, &mut db, TypeRef::Placeholder(open));
    assert!(!TypeRef::Owned(TypeId::Closure(free)).is_inferred(&db));
    assert!(TypeRef::Unknown.is_inferred(&db));
    assert!(TypeRef::Pointer(TypeId::Closure(free)).is_inferred(&db));
}
