//! Instances of classes and traits, and the type arguments they refer to.
use vstd::prelude::*;
use crate::arguments::{TypeArguments, TypeBounds};
use crate::collections::copies::parameters_of;
use crate::database::{
    arguments_valid, type_parameter_symbol, Database, Table, Trait, TypePlaceholder,
};
use crate::kinds::Symbol;
use crate::type_ref::{
    ClassId, ClassInstance, MethodId, Ownership, TraitId, TraitInstance, TypeId, TypeParameterId,
    TypePlaceholderId, TypeRef,
};

verus! {

/// The type that `with_types` assigns to the parameter at place `index`: the
/// type given for that place, or, where none is given, a new placeholder. The
/// placeholders are numbered from `first` on, in the order of the parameters.
pub open spec fn given_or_placeholder(given: Seq<TypeRef>, first: int, index: int) -> TypeRef {
    if index < given.len() {
        given[index]
    } else {
        TypeRef::Placeholder(
            TypePlaceholderId { id: (first + index - given.len()) as u32,
                ownership: Ownership::Any },
        )
    }
}

/// The types that `with_types` assigns to the first `n` of `params`.
pub open spec fn assigned_types(
    params: Seq<TypeParameterId>,
    given: Seq<TypeRef>,
    first: int,
    n: int,
) -> Map<usize, TypeRef>
    decreases n,
{
    if n <= 0 {
        Map::empty()
    } else {
        assigned_types(params, given, first, n - 1).insert(
            params[n - 1].0,
            given_or_placeholder(given, first, n - 1),
        )
    }
}

/// The number of placeholders that `with_types` makes.
pub open spec fn missing_types(params: Seq<TypeParameterId>, given: Seq<TypeRef>) -> nat {
    if params.len() > given.len() {
        (params.len() - given.len()) as nat
    } else {
        0
    }
}

/// The placeholders that `with_types` makes: one for each parameter without a
/// given type, which has no value yet and requires what that parameter
/// requires.
pub open spec fn made_placeholders(params: Seq<TypeParameterId>, given: Seq<TypeRef>) -> Seq<
    TypePlaceholder,
> {
    Seq::new(
        missing_types(params, given),
        |k: int| TypePlaceholder { value: TypeRef::Unknown,
            required: Some(params[given.len() + k]) },
    )
}

/// The rigid type that stands for `param` under `bounds`: the parameter that
/// the bounds put in its place, or the parameter itself.
pub open spec fn rigid_type(bounds: Map<usize, TypeParameterId>,
    param: TypeParameterId) -> TypeRef {
    TypeRef::Any(
        TypeId::RigidTypeParameter(
            if bounds.contains_key(param.0) {
                bounds[param.0]
            } else {
                param
            },
        ),
    )
}

/// The types that `rigid` assigns to the first `n` of `params`.
pub open spec fn rigid_types(
    params: Seq<TypeParameterId>,
    bounds: Map<usize, TypeParameterId>,
    n: int,
) -> Map<usize, TypeRef>
    decreases n,
{
    if n <= 0 {
        Map::empty()
    } else {
        rigid_types(params, bounds, n - 1).insert(params[n - 1].0, rigid_type(bounds,
            params[n - 1]))
    }
}

/// Every parameter that `bounds` puts in the place of another exists.
pub open spec fn bounds_valid(bounds: &TypeBounds, db: &Database) -> bool {
    forall|k: usize| #[trigger] bounds@.contains_key(k) ==> db.has_type_parameter(bounds@[k])
}

/// Arguments that assign to each of `params` the rigid type that stands for it
/// under `bounds`.
fn rigid_arguments(params: &Vec<TypeParameterId>, bounds: &TypeBounds) -> (r: TypeArguments)
    requires
        bounds.wf(),
    ensures
        r.wf(),
        r@ == rigid_types(params@, bounds@, params@.len() as int),
{
    let mut arguments = TypeArguments::new();
    let mut i: usize = 0;
    while i < params.len()
        invariant
            bounds.wf(),
            arguments.wf(),
            i <= params@.len(),
            arguments@ == rigid_types(params@, bounds@, i as int),
        decreases params@.len() - i,
    {
        let param = params[i];
        let stand_in = match bounds.get(param) {
            Some(bound) => bound,
            None => param,
        };
        arguments.assign(param, stand_in.as_rigid());
        i += 1;
    }
    arguments
}

/// Every type that `rigid` assigns is valid where the parameters and the
/// bounds are.
proof fn lemma_rigid_types_valid(
    params: Seq<TypeParameterId>,
    bounds: &TypeBounds,
    db: &Database,
    n: int,
)
    requires
        0 <= n <= params.len(),
        forall|i: int| 0 <= i < params.len() ==> db.has_type_parameter(#[trigger] params[i]),
        bounds_valid(bounds, db),
    ensures
        forall|k: usize| #[trigger]
            rigid_types(params, bounds@, n).contains_key(k) ==> rigid_types(
                params,
                bounds@,
                n,
            )[k].valid(db.bounds()),
    decreases n,
{
    let types = rigid_types(params, bounds@, n);
    if n > 0 {
        lemma_rigid_types_valid(params, bounds, db, n - 1);
        let param = params[n - 1];
        let earlier = rigid_types(params, bounds@, n - 1);
        assert(db.has_type_parameter(param));
        assert(types == earlier.insert(param.0, rigid_type(bounds@, param)));
        assert forall|k: usize| #[trigger] types.contains_key(k) implies types[k].valid(
            db.bounds(),
        ) by {
            if k == param.0 {
                if bounds@.contains_key(param.0) {
                    assert(db.has_type_parameter(bounds@[param.0]));
                }
            } else {
                assert(earlier.contains_key(k));
            }
        }
    } else {
        assert(types == Map::<usize, TypeRef>::empty());
    }
}

/// Adds one placeholder for each of `params` from place `given` on, and
/// assigns to each of `params` the type given for its place or its
/// placeholder.
fn types_or_placeholders(db: &mut Database, params: &Vec<TypeParameterId>,
    given: &Vec<TypeRef>) -> (r:
    TypeArguments)
    requires
        old(db).type_placeholders@.len() + missing_types(params@, given@) <= u32::MAX,
    ensures
        r.wf(),
        r@ == assigned_types(
            params@,
            given@,
            old(db).type_placeholders@.len() as int,
            params@.len() as int,
        ),
        final(db).type_placeholders@ == old(db).type_placeholders@ + made_placeholders(
            params@,
            given@,
        ),
        final(db).same_but(old(db), set![Table::TypePlaceholders]),
        old(db).wf() ==> final(db).wf(),
        old(db).wf() && (forall|i: int|
            0 <= i < given@.len() ==> (#[trigger] given@[i]).valid(old(db).bounds()))
            ==> arguments_valid(&r, final(db).bounds()),
{
    let ghost before = *db;
    let ghost first = before.type_placeholders@.len() as int;
    let mut args = TypeArguments::new();
    let mut index: usize = 0;
    while index < params.len()
        invariant
            before.type_placeholders@.len() + missing_types(params@, given@) <= u32::MAX,
            first == before.type_placeholders@.len(),
            args.wf(),
            index <= params@.len(),
            args@ == assigned_types(params@, given@, first, index as int),
            db.type_placeholders@ == before.type_placeholders@ + made_placeholders(
                params@,
                given@,
            ).subrange(0, missing_types(params@.subrange(0, index as int), given@) as int),
            db.same_but(&before, set![Table::TypePlaceholders]),
            before.wf() ==> db.wf(),
            before.wf() && (forall|i: int|
                0 <= i < given@.len() ==> (#[trigger] given@[i]).valid(before.bounds()))
                ==> arguments_valid(&args, db.bounds()),
        decreases params@.len() - index,
    {
        let param = params[index];
        let ghost made = missing_types(params@.subrange(0, index as int), given@) as int;
        let ghost earlier = *db;
        let ghost earlier_args = args;
        let val = if index < given.len() {
            given[index]
        } else {
            TypeRef::placeholder(db, Some(param))
        };
        args.assign(param, val);
        proof {
            let all = made_placeholders(params@, given@);
            let now = missing_types(params@.subrange(0, index + 1), given@) as int;
            if index < given@.len() {
                assert(now == made);
            } else {
                assert(now == made + 1);
                assert(all[made] == TypePlaceholder {
                    value: TypeRef::Unknown,
                    required: Some(param),
                });
                assert(db.type_placeholders@ =~= before.type_placeholders@ + all.subrange(0, now));
            }
            assert(val == given_or_placeholder(given@, first, index as int));
            if before.wf() && (forall|i: int|
                0 <= i < given@.len() ==> (#[trigger] given@[i]).valid(before.bounds())) {
                assert forall|k: usize| #[trigger] args@.contains_key(k) implies args@[k].valid(
                    db.bounds(),
                ) by {
                    if k == param.0 {
                        if index < given@.len() {
                            given@[index as int].lemma_valid_grows(before.bounds(), db.bounds());
                        }
                    } else {
                        assert(earlier_args@.contains_key(k));
                        earlier_args@[k].lemma_valid_grows(earlier.bounds(), db.bounds());
                    }
                }
            }
        }
        index += 1;
    }
    proof {
        assert(params@.subrange(0, params@.len() as int) =~= params@);
        assert(made_placeholders(params@, given@).subrange(
            0,
            missing_types(params@, given@) as int,
        ) =~= made_placeholders(params@, given@));
    }
    args
}

impl ClassInstance {
    /// True if the instance has type arguments in the database: its class is
    /// not generic, or the index it holds is within the table.
    pub open spec fn has_arguments(self, db: &Database) -> bool {
        db.class(self.instance_of).generic() ==> self.type_arguments < db.type_arguments@.len()
    }

    /// The type arguments of the instance.
    pub open spec fn arguments(self, db: &Database) -> TypeArguments {
        db.type_arguments@[self.type_arguments as int]
    }

    /// An instance of `instance_of` that assigns to each type parameter of the
    /// class the rigid type that stands for it under `bounds`. For a class that
    /// is not generic nothing is added to the database.
    pub fn rigid(db: &mut Database, instance_of: ClassId, bounds: &TypeBounds) -> (r: Self)
        requires
            old(db).has_class(instance_of),
            old(db).type_arguments@.len() < u32::MAX,
            bounds.wf(),
        ensures
            r.instance_of == instance_of,
            !old(db).class(instance_of).generic() ==> r.type_arguments == 0 && *final(db) == *old(
                db,
            ),
            old(db).class(instance_of).generic() ==> {
                &&& r.type_arguments == old(db).type_arguments@.len()
                &&& final(db).type_arguments@
                    == old(db).type_arguments@.push(r.arguments(final(db)))
                &&& r.arguments(final(db)).wf()
                &&& r.arguments(final(db))@ == rigid_types(
                    parameters_of(&old(db).class(instance_of).type_parameters),
                    bounds@,
                    old(db).class(instance_of).type_parameters.entries().len() as int,
                )
                &&& final(db).same_but(old(db), set![Table::TypeArguments])
            },
            old(db).wf() && bounds_valid(bounds, old(db)) ==> final(db).wf(),
    {
        if instance_of.is_generic(db) {
            let params = instance_of.type_parameters(db);
            let arguments = rigid_arguments(&params, bounds);
            proof {
                if db.wf() && bounds_valid(bounds, db) {
                    lemma_rigid_types_valid(params@, bounds, db, params@.len() as int);
                }
            }
            ClassInstance::generic(db, instance_of, arguments)
        } else {
            ClassInstance::new(instance_of)
        }
    }

    /// An instance of `instance_of` with the given type arguments, which are
    /// added to the database.
    pub fn generic(db: &mut Database, instance_of: ClassId, arguments: TypeArguments) -> (r: Self)
        requires
            old(db).type_arguments@.len() < u32::MAX,
        ensures
            r == (ClassInstance {
                instance_of,
                type_arguments: old(db).type_arguments@.len() as u32,
            }),
            final(db).type_arguments@ == old(db).type_arguments@.push(arguments),
            final(db).same_but(old(db), set![Table::TypeArguments]),
            old(db).wf() && arguments.wf() && arguments_valid(&arguments, old(db).bounds())
                ==> final(db).wf(),
    {
        let args_id = db.type_arguments.len() as u32;

        db.type_arguments.push(arguments);
        ClassInstance { instance_of, type_arguments: args_id }
    }

    /// An instance of `class` that assigns to each type parameter of the class
    /// the type that `arguments` gives for its place. To the parameters for
    /// which none is given a new placeholder is assigned.
    pub fn with_types(db: &mut Database, class: ClassId, arguments: Vec<TypeRef>) -> (r: Self)
        requires
            old(db).has_class(class),
            old(db).type_arguments@.len() < u32::MAX,
            old(db).type_placeholders@.len() + missing_types(
                parameters_of(&old(db).class(class).type_parameters),
                arguments@,
            ) <= u32::MAX,
        ensures
            r == (ClassInstance {
                instance_of: class,
                type_arguments: old(db).type_arguments@.len() as u32,
            }),
            final(db).type_arguments@ == old(db).type_arguments@.push(r.arguments(final(db))),
            r.arguments(final(db)).wf(),
            r.arguments(final(db))@ == assigned_types(
                parameters_of(&old(db).class(class).type_parameters),
                arguments@,
                old(db).type_placeholders@.len() as int,
                old(db).class(class).type_parameters.entries().len() as int,
            ),
            final(db).type_placeholders@ == old(db).type_placeholders@ + made_placeholders(
                parameters_of(&old(db).class(class).type_parameters),
                arguments@,
            ),
            final(db).same_but(old(db), set![Table::TypeArguments, Table::TypePlaceholders]),
            old(db).wf() && (forall|i: int|
                0 <= i < arguments@.len() ==> (#[trigger] arguments@[i]).valid(old(db).bounds()))
                ==> final(db).wf(),
    {
        let params = class.type_parameters(db);
        let args = types_or_placeholders(db, &params, &arguments);

        ClassInstance::generic(db, class, args)
    }

    /// An instance of `class` that assigns a new placeholder to each type
    /// parameter of the class. For a class that is not generic nothing is
    /// added to the database.
    pub fn empty(db: &mut Database, class: ClassId) -> (r: Self)
        requires
            old(db).has_class(class),
            old(db).type_arguments@.len() < u32::MAX,
            old(db).type_placeholders@.len() + old(db).class(class).type_parameters.entries().len()
                <= u32::MAX,
        ensures
            r.instance_of == class,
            !old(db).class(class).generic() ==> r.type_arguments == 0 && *final(db) == *old(db),
            old(db).class(class).generic() ==> {
                &&& r.type_arguments == old(db).type_arguments@.len()
                &&& final(db).type_arguments@
                    == old(db).type_arguments@.push(r.arguments(final(db)))
                &&& r.arguments(final(db)).wf()
                &&& r.arguments(final(db))@ == assigned_types(
                    parameters_of(&old(db).class(class).type_parameters),
                    Seq::empty(),
                    old(db).type_placeholders@.len() as int,
                    old(db).class(class).type_parameters.entries().len() as int,
                )
                &&& final(db).type_placeholders@ == old(db).type_placeholders@ + made_placeholders(
                    parameters_of(&old(db).class(class).type_parameters),
                    Seq::empty(),
                )
                &&& final(db).same_but(
                    old(db),
                    set![Table::TypeArguments, Table::TypePlaceholders],
                )
            },
            old(db).wf() ==> final(db).wf(),
    {
        if !class.is_generic(db) {
            return ClassInstance::new(class);
        }
        let params = class.type_parameters(db);
        let none: Vec<TypeRef> = Vec::new();
        let args = types_or_placeholders(db, &params, &none);

        ClassInstance::generic(db, class, args)
    }

    /// The type arguments that the index of the instance points at, if the
    /// index is within the table.
    pub fn type_arguments(self, db: &Database) -> (r: Option<&TypeArguments>)
        ensures
            match r {
                Some(args) => self.type_arguments < db.type_arguments@.len() && *args
                    == self.arguments(db),
                None => self.type_arguments >= db.type_arguments@.len(),
            },
    {
        if (self.type_arguments as usize) < db.type_arguments.len() {
            Some(&db.type_arguments[self.type_arguments as usize])
        } else {
            None
        }
    }

    /// The method that the class of the instance defines under `name`.
    pub fn method(self, db: &Database, name: &str) -> (r: Option<MethodId>)
        requires
            db.has_class(self.instance_of),
        ensures
            r == db.class(self.instance_of).methods.lookup(name@),
            db.wf() && r is Some ==> db.has_method(r.unwrap()),
    {
        self.instance_of.method(db, name)
    }

    /// The types assigned to the type parameters of the class, in the order of
    /// the parameters. A parameter without a type gives `Unknown`.
    pub fn ordered_type_arguments(self, db: &Database) -> (r: Vec<TypeRef>)
        requires
            db.has_class(self.instance_of),
            self.type_arguments < db.type_arguments@.len(),
            self.arguments(db).wf(),
        ensures
            r@.len() == db.class(self.instance_of).type_parameters.entries().len(),
            forall|i: int|
                0 <= i < r@.len() ==> r@[i] == (match self.arguments(db).lookup(
                    parameters_of(&db.class(self.instance_of).type_parameters)[i],
                ) {
                    Some(typ) => typ,
                    None => TypeRef::Unknown,
                }),
    {
        let params = self.instance_of.type_parameters(db);
        let args = &db.type_arguments[self.type_arguments as usize];
        let mut out: Vec<TypeRef> = Vec::new();
        let mut i: usize = 0;
        while i < params.len()
            invariant
                args.wf(),
                i <= params@.len(),
                out@.len() == i,
                forall|j: int|
                    0 <= j < i ==> out@[j] == (match args.lookup(params@[j]) {
                        Some(typ) => typ,
                        None => TypeRef::Unknown,
                    }),
            decreases params@.len() - i,
        {
            out.push(
                match args.get(params[i]) {
                    Some(typ) => typ,
                    None => TypeRef::Unknown,
                },
            );
            i += 1;
        }
        out
    }

    /// The type parameter of the class that is named `name`, as a symbol.
    pub fn named_type(self, db: &Database, name: &str) -> (r: Option<Symbol>)
        requires
            db.has_class(self.instance_of),
            db.class(self.instance_of).type_parameters.wf(),
        ensures
            r == type_parameter_symbol(&db.class(self.instance_of).type_parameters, name@),
    {
        self.instance_of.named_type(db, name)
    }
}

impl TraitInstance {
    /// True if the instance has type arguments in the database: its trait is
    /// not generic, or the index it holds is within the table.
    pub open spec fn has_arguments(self, db: &Database) -> bool {
        db.trait_(self.instance_of).generic() ==> self.type_arguments < db.type_arguments@.len()
    }

    /// The type arguments of the instance.
    pub open spec fn arguments(self, db: &Database) -> TypeArguments {
        db.type_arguments@[self.type_arguments as int]
    }

    /// An instance of `instance_of` that assigns to each type parameter of the
    /// trait the rigid type that stands for it under `bounds`. For a trait that
    /// is not generic nothing is added to the database.
    pub fn rigid(db: &mut Database, instance_of: TraitId, bounds: &TypeBounds) -> (r: Self)
        requires
            old(db).has_trait(instance_of),
            old(db).type_arguments@.len() < u32::MAX,
            bounds.wf(),
        ensures
            r.instance_of == instance_of,
            !old(db).trait_(instance_of).generic() ==> r.type_arguments == 0 && *final(db) == *old(
                db,
            ),
            old(db).trait_(instance_of).generic() ==> {
                &&& r.type_arguments == old(db).type_arguments@.len()
                &&& final(db).type_arguments@
                    == old(db).type_arguments@.push(r.arguments(final(db)))
                &&& r.arguments(final(db)).wf()
                &&& r.arguments(final(db))@ == rigid_types(
                    parameters_of(&old(db).trait_(instance_of).type_parameters),
                    bounds@,
                    old(db).trait_(instance_of).type_parameters.entries().len() as int,
                )
                &&& final(db).same_but(old(db), set![Table::TypeArguments])
            },
            old(db).wf() && bounds_valid(bounds, old(db)) ==> final(db).wf(),
    {
        if instance_of.is_generic(db) {
            let params = instance_of.type_parameters(db);
            let arguments = rigid_arguments(&params, bounds);
            proof {
                if db.wf() && bounds_valid(bounds, db) {
                    assert(db.traits@[instance_of.0 as int].wf(db.bounds()));
                    lemma_rigid_types_valid(params@, bounds, db, params@.len() as int);
                }
            }
            TraitInstance::generic(db, instance_of, arguments)
        } else {
            TraitInstance::new(instance_of)
        }
    }

    /// An instance of `instance_of` with the given type arguments, which are
    /// added to the database.
    pub fn generic(db: &mut Database, instance_of: TraitId, arguments: TypeArguments) -> (r: Self)
        requires
            old(db).type_arguments@.len() < u32::MAX,
        ensures
            r == (TraitInstance {
                instance_of,
                type_arguments: old(db).type_arguments@.len() as u32,
            }),
            final(db).type_arguments@ == old(db).type_arguments@.push(arguments),
            final(db).same_but(old(db), set![Table::TypeArguments]),
            old(db).wf() && arguments.wf() && arguments_valid(&arguments, old(db).bounds())
                ==> final(db).wf(),
    {
        let type_args_id = db.type_arguments.len() as u32;

        db.type_arguments.push(arguments);
        TraitInstance { instance_of, type_arguments: type_args_id }
    }

    /// The type arguments that the index of the instance points at, if the
    /// index is within the table.
    pub fn type_arguments(self, db: &Database) -> (r: Option<&TypeArguments>)
        ensures
            match r {
                Some(args) => self.type_arguments < db.type_arguments@.len() && *args
                    == self.arguments(db),
                None => self.type_arguments >= db.type_arguments@.len(),
            },
    {
        if (self.type_arguments as usize) < db.type_arguments.len() {
            Some(&db.type_arguments[self.type_arguments as usize])
        } else {
            None
        }
    }

    /// Assigns in the type arguments of the instance the type that `from`
    /// assigns to each type parameter of the trait. Nothing happens for a trait
    /// that is not generic.
    pub fn copy_new_arguments_from(self, db: &mut Database, from: &TypeArguments)
        requires
            old(db).has_trait(self.instance_of),
            self.has_arguments(old(db)),
            old(db).trait_(self.instance_of).generic() ==> self.arguments(old(db)).wf(),
            from.wf(),
        ensures
            !old(db).trait_(self.instance_of).generic() ==> *final(db) == *old(db),
            old(db).trait_(self.instance_of).generic() ==> {
                &&& final(db).type_arguments@ == old(db).type_arguments@.update(
                    self.type_arguments as int,
                    self.arguments(final(db)),
                )
                &&& final(db).same_but(old(db), set![Table::TypeArguments])
                &&& self.arguments(final(db)).wf()
                &&& forall|k: usize| #[trigger]
                    self.arguments(final(db))@.contains_key(k) <==> self.arguments(
                        old(db),
                    )@.contains_key(k) || (from@.contains_key(k) && parameters_of(
                        &old(db).trait_(self.instance_of).type_parameters,
                    ).contains(TypeParameterId(k)))
                &&& forall|k: usize| #[trigger]
                    self.arguments(final(db))@.contains_key(k) ==> self.arguments(final(db))@[k]
                        == (if from@.contains_key(k) && parameters_of(
                        &old(db).trait_(self.instance_of).type_parameters,
                    ).contains(TypeParameterId(k)) {
                        from@[k]
                    } else {
                        self.arguments(old(db))@[k]
                    })
            },
            old(db).wf() && arguments_valid(from, old(db).bounds()) ==> final(db).wf(),
    {
        if !self.instance_of.is_generic(db) {
            return ;
        }
        let ghost before = *db;
        let params = self.instance_of.type_parameters(db);

        from.copy_assigned_into(params, &mut db.type_arguments[self.type_arguments as usize]);
        proof {
            assert(db.type_arguments@ =~= before.type_arguments@.update(
                self.type_arguments as int,
                self.arguments(db),
            ));
            if before.wf() && arguments_valid(from, before.bounds()) {
                let was = before.type_arguments@[self.type_arguments as int];
                assert(arguments_valid(&was, before.bounds()));
                assert(arguments_valid(&self.arguments(db), db.bounds()));
            }
        }
    }

    /// Assigns in `target` every type that the type arguments of the instance
    /// assign. Nothing happens for a trait that is not generic.
    pub fn copy_type_arguments_into(self, db: &Database, target: &mut TypeArguments)
        requires
            db.has_trait(self.instance_of),
            self.has_arguments(db),
            db.trait_(self.instance_of).generic() ==> self.arguments(db).wf(),
            old(target).wf(),
        ensures
            final(target).wf(),
            final(target)@ == (if db.trait_(self.instance_of).generic() {
                old(target)@.union_prefer_right(self.arguments(db)@)
            } else {
                old(target)@
            }),
    {
        if !self.instance_of.is_generic(db) {
            return ;
        }
        match self.type_arguments(db) {
            Some(args) => args.copy_into(target),
            None => {},
        }
    }

    /// The type parameter of the trait that is named `name`, as a symbol.
    pub fn named_type(self, db: &Database, name: &str) -> (r: Option<Symbol>)
        requires
            db.has_trait(self.instance_of),
            db.trait_(self.instance_of).type_parameters.wf(),
        ensures
            r == type_parameter_symbol(&db.trait_(self.instance_of).type_parameters, name@),
    {
        self.instance_of.named_type(db, name)
    }
}

impl TypeArguments {
    /// The type arguments of `instance`: a copy of what the database holds for
    /// an instance of a generic class, and nothing for any other instance.
    pub fn for_class(db: &Database, instance: ClassInstance) -> (r: TypeArguments)
        requires
            db.has_class(instance.instance_of),
            instance.has_arguments(db),
            db.class(instance.instance_of).generic() ==> instance.arguments(db).wf(),
        ensures
            r.wf(),
            r@ == (if db.class(instance.instance_of).generic() {
                instance.arguments(db)@
            } else {
                Map::<usize, TypeRef>::empty()
            }),
    {
        if instance.instance_of().is_generic(db) {
            match instance.type_arguments(db) {
                Some(args) => args.duplicate(),
                None => TypeArguments::new(),
            }
        } else {
            TypeArguments::new()
        }
    }

    /// The type arguments of `instance`: a copy of what the database holds for
    /// an instance of a generic trait, and nothing for any other instance.
    pub fn for_trait(db: &Database, instance: TraitInstance) -> (r: TypeArguments)
        requires
            db.has_trait(instance.instance_of),
            instance.has_arguments(db),
            db.trait_(instance.instance_of).generic() ==> instance.arguments(db).wf(),
        ensures
            r.wf(),
            r@ == (if db.trait_(instance.instance_of).generic() {
                instance.arguments(db)@
            } else {
                Map::<usize, TypeRef>::empty()
            }),
    {
        if instance.instance_of().is_generic(db) {
            match instance.type_arguments(db) {
                Some(args) => args.duplicate(),
                None => TypeArguments::new(),
            }
        } else {
            TypeArguments::new()
        }
    }
}

impl TraitId {
    /// The type arguments that a trait takes over from the trait that
    /// `requirement` is an instance of when it comes to require it: what that
    /// trait inherits itself, and on top of it what `requirement` assigns.
    pub open spec fn taken_over(db: &Database, requirement: TraitInstance) -> Map<usize, TypeRef> {
        if db.trait_(requirement.instance_of).generic() {
            db.trait_(requirement.instance_of).inherited_type_arguments@.union_prefer_right(
                requirement.arguments(db)@,
            )
        } else {
            db.trait_(requirement.instance_of).inherited_type_arguments@
        }
    }

    /// Lets the trait require `requirement`. The type arguments that come with
    /// it are stored with the trait there and then, on top of the ones that
    /// the trait has inherited before, so that no lookup has to walk the chain
    /// of requirements.
    pub fn add_required_trait(self, db: &mut Database, requirement: TraitInstance)
        requires
            old(db).has_trait(self),
            old(db).has_trait(requirement.instance_of),
            requirement.has_arguments(old(db)),
            old(db).trait_(requirement.instance_of).generic() ==> requirement.arguments(
                old(db),
            ).wf(),
            old(db).trait_(requirement.instance_of).inherited_type_arguments.wf(),
            old(db).trait_(self).inherited_type_arguments.wf(),
        ensures
            final(db).trait_changed(
                old(db),
                self,
                Trait {
                    inherited_type_arguments: final(db).trait_(self).inherited_type_arguments,
                    required_traits: final(db).trait_(self).required_traits,
                    ..old(db).trait_(self)
                },
            ),
            final(db).trait_(self).required_traits@ == old(db).trait_(self).required_traits@.push(
                requirement,
            ),
            final(db).trait_(self).inherited_type_arguments.wf(),
            final(db).trait_(self).inherited_type_arguments@ == old(db).trait_(
                self,
            ).inherited_type_arguments@.union_prefer_right(TraitId::taken_over(old(db),
                requirement)),
            old(db).wf() ==> final(db).wf(),
    {
        let ghost before = *db;
        let mut base = db.traits[requirement.instance_of.0 as usize].inherited_type_arguments.duplicate();

        if requirement.instance_of.is_generic(db) {
            match requirement.type_arguments(db) {
                Some(args) => args.copy_into(&mut base),
                None => {},
            }
        }
        assert(base@ == TraitId::taken_over(&before, requirement));
        base.move_into(&mut db.traits[self.0 as usize].inherited_type_arguments);
        db.traits[self.0 as usize].required_traits.push(requirement);
        proof {
            assert(db.traits@ =~= before.traits@.update(
                self.0 as int,
                Trait {
                    inherited_type_arguments: db.trait_(self).inherited_type_arguments,
                    required_traits: db.trait_(self).required_traits,
                    ..before.trait_(self)
                },
            ));
            if before.wf() {
                let b = before.bounds();
                assert(before.traits@[self.0 as int].wf(b));
                assert(before.traits@[requirement.instance_of.0 as int].wf(b));
                if before.trait_(requirement.instance_of).generic() {
                    assert(arguments_valid(
                        &before.type_arguments@[requirement.type_arguments as int],
                        b,
                    ));
                }
                assert(arguments_valid(&db.trait_(self).inherited_type_arguments, b));
                assert(db.traits@[self.0 as int].wf(db.bounds()));
            }
        }
    }
}

} // verus!
