//! Questions that look into the type arguments of instances, the fields of
//! classes and the signatures of closures.
//!
//! Types can be nested without end: a class can have a field of its own type.
//! The questions of this module are therefore asked with a number of levels to
//! look into, and are answered only if the look comes to an end and every
//! generic instance met has its type arguments in the database.
use vstd::prelude::*;
use crate::collections::copies::fields_of;
use crate::database::{arguments_valid, Argument, Database};
use crate::type_ref::{FieldId, TypeId, TypeRef};

verus! {

/// The types of `fields`, in order.
pub open spec fn field_types(db: &Database, fields: Seq<FieldId>) -> Seq<TypeRef> {
    Seq::new(fields.len(), |i: int| db.field(fields[i]).value_type)
}

/// The types of `arguments`, in order.
pub open spec fn argument_value_types(arguments: Seq<Argument>) -> Seq<TypeRef> {
    Seq::new(arguments.len(), |i: int| arguments[i].value_type)
}

/// Whether a value of type `typ` can be the result of a call into another
/// process, looking into at most `fuel` levels: a unique value, `Never`, an
/// error and a placeholder without a value can; an owned instance can if all
/// its type arguments and the types of all its fields can; any other value can
/// if it is a value type.
pub open spec fn sendable_output(db: &Database, typ: TypeRef, fuel: nat) -> Option<bool>
    decreases fuel, 0nat, 0nat,
{
    match typ.resolved(db) {
        TypeRef::Uni(_) | TypeRef::Never | TypeRef::Error | TypeRef::Placeholder(_) => Some(true),
        TypeRef::Owned(TypeId::ClassInstance(ins)) => if fuel == 0 || !ins.has_arguments(db) {
            None
        } else {
            let arguments = if db.class(ins.instance_of).generic() {
                ins.arguments(db).mapping.values@
            } else {
                Seq::empty()
            };
            match all_sendable_output(db, arguments, 0, (fuel - 1) as nat) {
                None => None,
                Some(false) => Some(false),
                Some(true) => all_sendable_output(
                    db,
                    field_types(db, fields_of(&db.class(ins.instance_of).fields, 0)),
                    0,
                    (fuel - 1) as nat,
                ),
            }
        },
        resolved => Some(resolved.value_type_resolved(db)),
    }
}

/// Whether values of all of `types` from place `from` on can be the result of
/// a call into another process. The types are looked at in order, up to the
/// first that can't.
pub open spec fn all_sendable_output(db: &Database, types: Seq<TypeRef>, from: int,
    fuel: nat) -> Option<
    bool,
>
    decreases fuel, 1nat, types.len() - from,
{
    if from < 0 || from >= types.len() {
        Some(true)
    } else {
        match sendable_output(db, types[from], fuel) {
            None => None,
            Some(false) => Some(false),
            Some(true) => all_sendable_output(db, types, from + 1, fuel),
        }
    }
}

/// Whether the type `typ` is inferred, looking into at most `fuel` levels: a
/// placeholder is if it has a value that is; an instance of a generic class or
/// trait is if all its type arguments are; a closure is if the types of its
/// arguments and its return type are; everything else is.
pub open spec fn inferred(db: &Database, typ: TypeRef, fuel: nat) -> Option<bool>
    decreases fuel, 0nat, 0nat,
{
    match typ.resolved(db) {
        TypeRef::Placeholder(_) => Some(false),
        TypeRef::Pointer(_) => Some(true),
        resolved => match resolved.inner() {
            Some(TypeId::ClassInstance(ins)) => if !db.class(ins.instance_of).generic() {
                Some(true)
            } else if fuel == 0 || !ins.has_arguments(db) {
                None
            } else {
                all_inferred(db, ins.arguments(db).mapping.values@, 0, (fuel - 1) as nat)
            },
            Some(TypeId::TraitInstance(ins)) => if !db.trait_(ins.instance_of).generic() {
                Some(true)
            } else if fuel == 0 || !ins.has_arguments(db) {
                None
            } else {
                all_inferred(db, ins.arguments(db).mapping.values@, 0, (fuel - 1) as nat)
            },
            Some(TypeId::Closure(id)) => if fuel == 0 {
                None
            } else {
                match all_inferred(
                    db,
                    argument_value_types(db.closure(id).arguments.items@),
                    0,
                    (fuel - 1) as nat,
                ) {
                    None => None,
                    Some(false) => Some(false),
                    Some(true) => inferred(db, db.closure(id).return_type, (fuel - 1) as nat),
                }
            },
            _ => Some(true),
        },
    }
}

/// Whether all of `types` from place `from` on are inferred. The types are
/// looked at in order, up to the first that is not.
pub open spec fn all_inferred(db: &Database, types: Seq<TypeRef>, from: int, fuel: nat) -> Option<
    bool,
>
    decreases fuel, 1nat, types.len() - from,
{
    if from < 0 || from >= types.len() {
        Some(true)
    } else {
        match inferred(db, types[from], fuel) {
            None => None,
            Some(false) => Some(false),
            Some(true) => all_inferred(db, types, from + 1, fuel),
        }
    }
}

/// Every value that the type arguments at `index` assign is valid.
proof fn lemma_argument_values_valid(db: &Database, index: int)
    requires
        db.wf(),
        0 <= index < db.type_arguments@.len(),
    ensures
        forall|i: int|
            0 <= i < db.type_arguments@[index].mapping.values@.len() ==> (
            #[trigger] db.type_arguments@[index].mapping.values@[i]).valid(db.bounds()),
{
    let args = db.type_arguments@[index];
    assert(args.wf());
    assert(arguments_valid(&args, db.bounds()));
    assert forall|i: int| 0 <= i < args.mapping.values@.len() implies (
    #[trigger] args.mapping.values@[i]).valid(db.bounds()) by {
        crate::collections::id_map::lemma_place_of(args.mapping.keys@, i);
        assert(args@.contains_key(args.mapping.keys@[i]));
    }
}

/// Whether values of all of `types` can be the result of a call into another
/// process.
fn all_sendable_output_within(db: &Database, types: &Vec<TypeRef>, Ghost(fuel): Ghost<nat>) -> (r:
    bool)
    requires
        db.wf(),
        forall|i: int| 0 <= i < types@.len() ==> (#[trigger] types@[i]).valid(db.bounds()),
        all_sendable_output(db, types@, 0, fuel) is Some,
    ensures
        Some(r) == all_sendable_output(db, types@, 0, fuel),
    decreases fuel, 1nat, types@.len(),
{
    let mut i: usize = 0;
    while i < types.len()
        invariant
            db.wf(),
            forall|i: int| 0 <= i < types@.len() ==> (#[trigger] types@[i]).valid(db.bounds()),
            i <= types@.len(),
            all_sendable_output(db, types@, i as int, fuel) == all_sendable_output(
                db,
                types@,
                0,
                fuel,
            ),
            all_sendable_output(db, types@, 0, fuel) is Some,
        decreases types@.len() - i,
    {
        if !types[i].is_sendable_output_within(db, Ghost(fuel)) {
            return false;
        }
        i += 1;
    }
    true
}

/// Whether all of `types` are inferred.
fn all_inferred_within(db: &Database, types: &Vec<TypeRef>, Ghost(fuel): Ghost<nat>) -> (r: bool)
    requires
        db.wf(),
        forall|i: int| 0 <= i < types@.len() ==> (#[trigger] types@[i]).valid(db.bounds()),
        all_inferred(db, types@, 0, fuel) is Some,
    ensures
        Some(r) == all_inferred(db, types@, 0, fuel),
    decreases fuel, 1nat, types@.len(),
{
    let mut i: usize = 0;
    while i < types.len()
        invariant
            db.wf(),
            forall|i: int| 0 <= i < types@.len() ==> (#[trigger] types@[i]).valid(db.bounds()),
            i <= types@.len(),
            all_inferred(db, types@, i as int, fuel) == all_inferred(db, types@, 0, fuel),
            all_inferred(db, types@, 0, fuel) is Some,
        decreases types@.len() - i,
    {
        if !types[i].is_inferred_within(db, Ghost(fuel)) {
            return false;
        }
        i += 1;
    }
    true
}

impl TypeRef {
    /// The question whether a value of this type can be the result of a call
    /// into another process has an answer.
    pub open spec fn sendable_output_known(self, db: &Database) -> bool {
        exists|fuel: nat| sendable_output(db, self, fuel) is Some
    }

    /// Whether a value of this type can be the result of a call into another
    /// process: see `sendable_output`.
    pub fn is_sendable_output(self, db: &Database) -> (r: bool)
        requires
            db.wf(),
            self.valid(db.bounds()),
            self.sendable_output_known(db),
        ensures
            Some(r) == sendable_output(
                db,
                self,
                choose|fuel: nat| sendable_output(db, self, fuel) is Some,
            ),
    {
        self.is_sendable_output_within(
            db,
            Ghost(choose|fuel: nat| sendable_output(db, self, fuel) is Some),
        )
    }

    fn is_sendable_output_within(self, db: &Database, Ghost(fuel): Ghost<nat>) -> (r: bool)
        requires
            db.wf(),
            self.valid(db.bounds()),
            sendable_output(db, self, fuel) is Some,
        ensures
            Some(r) == sendable_output(db, self, fuel),
        decreases fuel, 0nat, 0nat,
    {
        let resolved = self.resolve(db);
        match resolved {
            TypeRef::Uni(_) | TypeRef::Never | TypeRef::Error | TypeRef::Placeholder(_) => true,
            TypeRef::Owned(TypeId::ClassInstance(id)) => {
                let class = id.instance_of;

                if class.is_generic(db) {
                    proof {
                        lemma_argument_values_valid(db, id.type_arguments as int);
                    }
                    let values = &db.type_arguments[id.type_arguments as usize].mapping.values;
                    if !all_sendable_output_within(db, values, Ghost((fuel - 1) as nat)) {
                        return false;
                    }
                }
                let fields = class.fields(db);
                let mut types: Vec<TypeRef> = Vec::new();
                let mut i: usize = 0;
                while i < fields.len()
                    invariant
                        db.wf(),
                        forall|j: int| 0 <= j < fields@.len() ==>
                            db.has_field(#[trigger] fields@[j]),
                        i <= fields@.len(),
                        types@ == field_types(db, fields@).subrange(0, i as int),
                        forall|j: int|
                            0 <= j < types@.len() ==> (#[trigger] types@[j]).valid(db.bounds()),
                    decreases fields@.len() - i,
                {
                    types.push(fields[i].value_type(db));
                    assert(types@ =~= field_types(db, fields@).subrange(0, i + 1));
                    i += 1;
                }
                assert(types@ =~= field_types(db, fields@));
                all_sendable_output_within(db, &types, Ghost((fuel - 1) as nat))
            },
            _ => resolved.is_value_type_resolved(db),
        }
    }

    /// The question whether this type is inferred has an answer.
    pub open spec fn inferred_known(self, db: &Database) -> bool {
        exists|fuel: nat| inferred(db, self, fuel) is Some
    }

    /// Whether this type is inferred: see `inferred`.
    pub fn is_inferred(self, db: &Database) -> (r: bool)
        requires
            db.wf(),
            self.valid(db.bounds()),
            self.inferred_known(db),
        ensures
            Some(r) == inferred(db, self, choose|fuel: nat| inferred(db, self, fuel) is Some),
    {
        self.is_inferred_within(db, Ghost(choose|fuel: nat| inferred(db, self, fuel) is Some))
    }

    fn is_inferred_within(self, db: &Database, Ghost(fuel): Ghost<nat>) -> (r: bool)
        requires
            db.wf(),
            self.valid(db.bounds()),
            inferred(db, self, fuel) is Some,
        ensures
            Some(r) == inferred(db, self, fuel),
        decreases fuel, 0nat, 0nat,
    {
        match self.resolve(db) {
            TypeRef::Owned(id)
            | TypeRef::Uni(id)
            | TypeRef::Ref(id)
            | TypeRef::Mut(id)
            | TypeRef::UniRef(id)
            | TypeRef::UniMut(id)
            | TypeRef::Any(id) => match id {
                TypeId::ClassInstance(ins) => {
                    if ins.instance_of.is_generic(db) {
                        proof {
                            lemma_argument_values_valid(db, ins.type_arguments as int);
                        }
                        all_inferred_within(
                            db,
                            &db.type_arguments[ins.type_arguments as usize].mapping.values,
                            Ghost((fuel - 1) as nat),
                        )
                    } else {
                        true
                    }
                },
                TypeId::TraitInstance(ins) => {
                    if ins.instance_of.is_generic(db) {
                        proof {
                            lemma_argument_values_valid(db, ins.type_arguments as int);
                        }
                        all_inferred_within(
                            db,
                            &db.type_arguments[ins.type_arguments as usize].mapping.values,
                            Ghost((fuel - 1) as nat),
                        )
                    } else {
                        true
                    }
                },
                TypeId::Closure(id) => {
                    proof {
                        assert(db.closures@[id.0 as int].wf(db.bounds()));
                    }
                    let items = &db.closures[id.0].arguments.items;
                    let mut types: Vec<TypeRef> = Vec::new();
                    let mut i: usize = 0;
                    while i < items.len()
                        invariant
                            db.wf(),
                            db.has_closure(id),
                            *items == db.closure(id).arguments.items,
                            db.closure(id).wf(db.bounds()),
                            i <= items@.len(),
                            types@ == argument_value_types(items@).subrange(0, i as int),
                            forall|j: int|
                                0 <= j < types@.len() ==> (#[trigger] types@[j]).valid(db.bounds()),
                        decreases items@.len() - i,
                    {
                        proof {
                            assert(items@[i as int].value_type.valid(db.bounds()));
                        }
                        types.push(items[i].value_type);
                        assert(types@ =~= argument_value_types(items@).subrange(0, i + 1));
                        i += 1;
                    }
                    assert(types@ =~= argument_value_types(items@));
                    all_inferred_within(db, &types, Ghost((fuel - 1) as nat))
                        && db.closures[id.0].return_type.is_inferred_within(
                        db,
                        Ghost((fuel - 1) as nat),
                    )
                },
                _ => true,
            },
            TypeRef::Placeholder(_) => false,
            _ => true,
        }
    }
}

} // verus!
