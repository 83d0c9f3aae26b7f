//! Methods.
use vstd::prelude::*;
use vstd::string::StrSliceExecFns;
use crate::arguments::TypeBounds;
use crate::block::Block;
use crate::collections::copies::{copy_vec, parameter_ids, parameters_of};
use crate::collections::name_index::{holds_name, with_entry, NameIndex};
use crate::collections::name_map::NameMap;
use crate::collections::seq_map::SeqMap;
use crate::database::{
    source_valid, type_parameter_symbol, Argument, Arguments, Database, Method, Table,
    TypeParameter, Variable,
};
use crate::kinds::{CallConvention, Inline, MethodKind, MethodSource, Symbol, Visibility};
use crate::location::Location;
use crate::type_ref::{
    FieldId, MethodId, ModuleId, Shape, TraitInstance, TypeParameterId, TypeRef, VariableId,
};
use crate::{METHODS_LIMIT, NIL_ID};

verus! {

impl Method {
    /// The method holds nothing but its attributes: no type parameters,
    /// arguments, bounds, fields, specializations or shapes, no documentation,
    /// and an unknown receiver and return type. A method of C is called as C
    /// calls; every other method is called as usual.
    pub open spec fn blank(&self) -> bool {
        &&& self.call_convention == (if self.kind is Extern {
            CallConvention::C
        } else {
            CallConvention::Inko
        })
        &&& self.documentation@.len() == 0
        &&& self.type_parameters.entries().len() == 0
        &&& self.arguments.linked()
        &&& self.arguments.items@.len() == 0
        &&& self.bounds@ == Map::<usize, TypeParameterId>::empty()
        &&& self.return_type == TypeRef::Unknown
        &&& self.receiver == TypeRef::Unknown
        &&& self.field_types@ == Map::<Seq<char>, (FieldId, TypeRef)>::empty()
        &&& self.field_types.order().len() == 0
        &&& !self.main
        &&& !self.variadic
        &&& self.specializations@ == Map::<Seq<Shape>, MethodId>::empty()
        &&& self.shapes@.len() == 0
    }

    /// The method has the given attributes and nothing else, and it is defined
    /// directly. A method of C is never inlined; every other method is inlined
    /// where that proves useful.
    pub open spec fn fresh(
        &self,
        module: ModuleId,
        location: Location,
        name: String,
        visibility: Visibility,
        kind: MethodKind,
    ) -> bool {
        &&& self.module == module
        &&& self.location == location
        &&& self.name == name
        &&& self.visibility == visibility
        &&& self.kind == kind
        &&& self.inline == (if kind is Extern {
            Inline::Never
        } else {
            Inline::Infer
        })
        &&& self.source == MethodSource::Direct
        &&& self.blank()
    }

    /// `self` holds what `other` holds, but for the module, which is `module`.
    pub open spec fn copy_of(&self, other: &Method, module: ModuleId) -> bool {
        &&& self.module == module
        &&& self.location == other.location
        &&& self.name == other.name
        &&& self.documentation == other.documentation
        &&& self.kind == other.kind
        &&& self.call_convention == other.call_convention
        &&& self.visibility == other.visibility
        &&& self.inline == other.inline
        &&& self.type_parameters.entries() == other.type_parameters.entries()
        &&& self.arguments.names.entries() == other.arguments.names.entries()
        &&& self.arguments.items@ == other.arguments.items@
        &&& self.bounds@ == other.bounds@
        &&& self.return_type == other.return_type
        &&& self.source == other.source
        &&& self.main == other.main
        &&& self.variadic == other.variadic
        &&& self.receiver == other.receiver
        &&& self.field_types@ == other.field_types@
        &&& self.field_types.order() == other.field_types.order()
        &&& self.specializations@ == other.specializations@
        &&& self.specializations.values@ == other.specializations.values@
        &&& self.shapes@ == other.shapes@
    }

    /// Adds a method to the database and returns its ID.
    pub fn allocate(
        db: &mut Database,
        module: ModuleId,
        location: Location,
        name: String,
        visibility: Visibility,
        kind: MethodKind,
    ) -> (id: MethodId)
        requires
            old(db).methods@.len() < METHODS_LIMIT,
        ensures
            id.0 == old(db).methods@.len(),
            final(db).method_added(old(db), final(db).method(id)),
            final(db).method(id).fresh(module, location, name, visibility, kind),
            old(db).wf() ==> final(db).wf(),
    {
        let mut call_convention = CallConvention::Inko;
        let mut inline = Inline::Infer;

        if let MethodKind::Extern = kind {
            call_convention = CallConvention::C;

            // External functions are never inlined because they're either
            // defined externally (such that there's nothing to inline) _or_
            // they're meant to be called from C code, in which case the
            // function _must_ in fact exist in generated code.
            inline = Inline::Never;
        }
        let id = db.methods.len();
        let method = Method {
            module,
            location,
            name,
            kind,
            call_convention,
            visibility,
            documentation: String::new(),
            type_parameters: NameIndex::new(),
            bounds: TypeBounds::new(),
            arguments: Arguments::new(),
            return_type: TypeRef::Unknown,
            source: MethodSource::Direct,
            receiver: TypeRef::Unknown,
            field_types: NameMap::new(),
            main: false,
            variadic: false,
            specializations: SeqMap::new(),
            shapes: Vec::new(),
            inline,
        };
        let ghost before = *db;

        db.methods.push(method);
        proof {
            if before.wf() {
                before.lemma_wf_in_grows(before.bounds(), db.bounds());
                assert(method.wf(db.bounds()));
            }
        }
        MethodId(id as u32)
    }

    /// A copy of the method that belongs to `module`.
    pub fn duplicate_into(&self, module: ModuleId) -> (r: Method)
        requires
            self.field_types.wf(),
            self.specializations.wf(),
            self.bounds.wf(),
        ensures
            r.copy_of(self, module),
            r.field_types.wf(),
            r.specializations.wf(),
            r.bounds.wf(),
    {
        Method {
            module,
            location: self.location,
            name: self.name.clone(),
            documentation: self.documentation.clone(),
            kind: self.kind,
            call_convention: self.call_convention,
            visibility: self.visibility,
            inline: self.inline,
            type_parameters: self.type_parameters.duplicate(),
            arguments: self.arguments.duplicate(),
            bounds: self.bounds.duplicate(),
            return_type: self.return_type,
            source: self.source,
            main: self.main,
            variadic: self.variadic,
            receiver: self.receiver,
            field_types: self.field_types.duplicate(),
            specializations: self.specializations.duplicate(),
            shapes: copy_vec(&self.shapes),
        }
    }
}

impl MethodId {
    /// True if the compiler generated the method: the names of such methods
    /// start with a dollar sign.
    pub fn is_generated(self, db: &Database) -> (r: bool)
        requires
            db.has_method(self),
        ensures
            r == (db.method(self).name@.len() > 0 && db.method(self).name@[0] == '$'),
    {
        let name = db.methods[self.0 as usize].name.as_str();
        !name.is_empty() && name.get_char(0) == '$'
    }

    /// The type parameter of the method that is named `name`, as a symbol.
    pub fn named_type(self, db: &Database, name: &str) -> (r: Option<Symbol>)
        requires
            db.has_method(self),
            db.method(self).type_parameters.wf(),
        ensures
            r == type_parameter_symbol(&db.method(self).type_parameters, name@),
    {
        match db.methods[self.0 as usize].type_parameters.get(name) {
            Some(id) => Some(Symbol::TypeParameter(TypeParameterId(id))),
            None => None,
        }
    }

    /// The type parameters of the method, in the order of their definition.
    pub fn type_parameters(self, db: &Database) -> (r: Vec<TypeParameterId>)
        requires
            db.has_method(self),
        ensures
            r@ == parameters_of(&db.method(self).type_parameters),
    {
        parameter_ids(&db.methods[self.0 as usize].type_parameters)
    }

    /// Adds a type parameter named `name` to the database and to the method.
    pub fn new_type_parameter(self, db: &mut Database, name: String) -> (id: TypeParameterId)
        requires
            old(db).has_method(self),
            old(db).type_parameters@.len() < u32::MAX,
            old(db).method(self).type_parameters.wf(),
        ensures
            id.0 == old(db).type_parameters@.len(),
            final(db).type_parameters@
                == old(db).type_parameters@.push(final(db).type_parameter(id)),
            final(db).type_parameter(id).name == name,
            final(db).type_parameter(id).requirements@.len() == 0,
            !final(db).type_parameter(id).mutable,
            !final(db).type_parameter(id).stack,
            final(db).type_parameter(id).original is None,
            final(db).methods@ == old(db).methods@.update(
                self.0 as int,
                Method { type_parameters: final(db).method(self).type_parameters,
                    ..old(db).method(self) },
            ),
            final(db).method(self).type_parameters.wf(),
            final(db).method(self).type_parameters.entries() == with_entry(
                old(db).method(self).type_parameters.entries(),
                name@,
                id.0,
            ),
            final(db).same_but(old(db), set![Table::Methods, Table::TypeParameters]),
            old(db).wf() ==> final(db).wf(),
    {
        let ghost before = *db;
        let param = TypeParameter::allocate(db, name.clone());
        let ghost mid = *db;

        db.methods[self.0 as usize].type_parameters.insert(name, param.0);
        proof {
            assert(db.methods@ =~= before.methods@.update(
                self.0 as int,
                Method { type_parameters: db.method(self).type_parameters, ..before.method(self) },
            ));
            if before.wf() {
                assert(mid.wf());
                assert(mid.methods@[self.0 as int].wf(mid.bounds()));
                assert(db.methods@[self.0 as int].wf(db.bounds()));
            }
        }
        param
    }

    pub fn set_module(self, db: &mut Database, module: ModuleId)
        requires
            old(db).has_method(self),
        ensures
            final(db).method_changed(old(db), self, Method { module, ..old(db).method(self) }),
            old(db).wf() ==> final(db).wf(),
    {
        db.methods[self.0 as usize].module = module;
    }

    pub fn set_receiver(self, db: &mut Database, receiver: TypeRef)
        requires
            old(db).has_method(self),
        ensures
            final(db).method_changed(old(db), self, Method { receiver, ..old(db).method(self) }),
            old(db).wf() && receiver.valid(old(db).bounds()) ==> final(db).wf(),
    {
        db.methods[self.0 as usize].receiver = receiver;
    }

    pub fn receiver(self, db: &Database) -> (r: TypeRef)
        requires
            db.has_method(self),
        ensures
            r == db.method(self).receiver,
            db.wf() ==> r.valid(db.bounds()),
    {
        db.methods[self.0 as usize].receiver
    }

    pub fn source(self, db: &Database) -> (r: MethodSource)
        requires
            db.has_method(self),
        ensures
            r == db.method(self).source,
    {
        db.methods[self.0 as usize].source
    }

    pub fn set_source(self, db: &mut Database, source: MethodSource)
        requires
            old(db).has_method(self),
        ensures
            final(db).method_changed(old(db), self, Method { source, ..old(db).method(self) }),
            old(db).wf() && source_valid(source, old(db).bounds()) ==> final(db).wf(),
    {
        db.methods[self.0 as usize].source = source;
    }

    pub fn name(self, db: &Database) -> (r: &String)
        requires
            db.has_method(self),
        ensures
            *r == db.method(self).name,
    {
        &db.methods[self.0 as usize].name
    }

    pub fn is_private(self, db: &Database) -> (r: bool)
        requires
            db.has_method(self),
        ensures
            r == !(db.method(self).visibility is Public),
    {
        !self.is_public(db)
    }

    pub fn is_public(self, db: &Database) -> (r: bool)
        requires
            db.has_method(self),
        ensures
            r == (db.method(self).visibility is Public),
    {
        db.methods[self.0 as usize].visibility == Visibility::Public
    }

    pub fn location(self, db: &Database) -> (r: Location)
        requires
            db.has_method(self),
        ensures
            r == db.method(self).location,
    {
        db.methods[self.0 as usize].location
    }

    pub fn set_documentation(self, db: &mut Database, value: String)
        requires
            old(db).has_method(self),
        ensures
            final(db).method_changed(
                old(db),
                self,
                Method { documentation: value, ..old(db).method(self) },
            ),
            old(db).wf() ==> final(db).wf(),
    {
        db.methods[self.0 as usize].documentation = value;
    }

    pub fn is_mutable(self, db: &Database) -> (r: bool)
        requires
            db.has_method(self),
        ensures
            r == (db.method(self).kind is Mutable || db.method(self).kind is AsyncMutable),
    {
        matches!(self.kind(db), MethodKind::Mutable | MethodKind::AsyncMutable)
    }

    pub fn is_immutable(self, db: &Database) -> (r: bool)
        requires
            db.has_method(self),
        ensures
            r == (db.method(self).kind is Async || db.method(self).kind is Static || db.method(
                self,
            ).kind is Instance),
    {
        matches!(self.kind(db), MethodKind::Async | MethodKind::Static | MethodKind::Instance)
    }

    pub fn is_async(self, db: &Database) -> (r: bool)
        requires
            db.has_method(self),
        ensures
            r == (db.method(self).kind is Async || db.method(self).kind is AsyncMutable),
    {
        matches!(self.kind(db), MethodKind::Async | MethodKind::AsyncMutable)
    }

    pub fn is_static(self, db: &Database) -> (r: bool)
        requires
            db.has_method(self),
        ensures
            r == (db.method(self).kind is Static || db.method(self).kind is Constructor),
    {
        matches!(self.kind(db), MethodKind::Static | MethodKind::Constructor)
    }

    pub fn is_extern(self, db: &Database) -> (r: bool)
        requires
            db.has_method(self),
        ensures
            r == (db.method(self).kind is Extern),
    {
        matches!(self.kind(db), MethodKind::Extern)
    }

    pub fn is_moving(self, db: &Database) -> (r: bool)
        requires
            db.has_method(self),
        ensures
            r == (db.method(self).kind is Moving),
    {
        matches!(self.kind(db), MethodKind::Moving)
    }

    pub fn is_instance(self, db: &Database) -> (r: bool)
        requires
            db.has_method(self),
        ensures
            r == instance_kind(db.method(self).kind),
    {
        matches!(
            self.kind(db),
            MethodKind::Async
                | MethodKind::AsyncMutable
                | MethodKind::Instance
                | MethodKind::Moving
                | MethodKind::Mutable
                | MethodKind::Destructor
        )
    }

    pub fn set_variadic(self, db: &mut Database)
        requires
            old(db).has_method(self),
        ensures
            final(db).method_changed(
                old(db),
                self,
                Method { variadic: true, ..old(db).method(self) },
            ),
            old(db).wf() ==> final(db).wf(),
    {
        db.methods[self.0 as usize].variadic = true;
    }

    pub fn is_variadic(self, db: &Database) -> (r: bool)
        requires
            db.has_method(self),
        ensures
            r == db.method(self).variadic,
    {
        db.methods[self.0 as usize].variadic
    }

    pub fn kind(self, db: &Database) -> (r: MethodKind)
        requires
            db.has_method(self),
        ensures
            r == db.method(self).kind,
    {
        db.methods[self.0 as usize].kind
    }

    pub fn module(self, db: &Database) -> (r: ModuleId)
        requires
            db.has_method(self),
        ensures
            r == db.method(self).module,
    {
        db.methods[self.0 as usize].module
    }
}

impl MethodId {
    /// The type of the argument at place `index`, if there are that many
    /// arguments.
    pub fn positional_argument_input_type(self, db: &Database, index: usize) -> (r: Option<TypeRef>)
        requires
            db.has_method(self),
        ensures
            r == db.method(self).arguments.spec_type_at(index as int),
    {
        db.methods[self.0 as usize].arguments.type_at(index)
    }

    /// Copies of the arguments, in the order of their definition.
    pub fn arguments(self, db: &Database) -> (r: Vec<Argument>)
        requires
            db.has_method(self),
        ensures
            r@ == db.method(self).arguments.items@,
    {
        db.methods[self.0 as usize].arguments.to_vec()
    }

    /// The types of the arguments, in the order of their definition.
    pub fn argument_types(self, db: &Database) -> (r: Vec<TypeRef>)
        requires
            db.has_method(self),
        ensures
            r@.len() == db.method(self).arguments.items@.len(),
            forall|i: int|
                0 <= i < r@.len() ==> r@[i] == (#[trigger] db.method(
                    self,
                ).arguments.items@[i]).value_type,
    {
        let items = db.methods[self.0 as usize].arguments.iter();
        let mut out: Vec<TypeRef> = Vec::new();
        let mut i: usize = 0;
        while i < items.len()
            invariant
                i <= items@.len(),
                out@.len() == i,
                forall|j: int| 0 <= j < i ==> out@[j] == (#[trigger] items@[j]).value_type,
            decreases items@.len() - i,
        {
            out.push(items[i].value_type);
            i += 1;
        }
        out
    }

    /// Gives the argument at place `index` the type `argument_type`, and its
    /// variable the type `variable_type`.
    pub fn update_argument_types(
        self,
        db: &mut Database,
        index: usize,
        variable_type: TypeRef,
        argument_type: TypeRef,
    )
        requires
            old(db).has_method(self),
            index < old(db).method(self).arguments.items@.len(),
            old(db).has_variable(old(db).method(self).arguments.items@[index as int].variable),
        ensures
            final(db).methods@ == old(db).methods@.update(
                self.0 as int,
                Method {
                    arguments: Arguments {
                        items: final(db).method(self).arguments.items,
                        ..old(db).method(self).arguments
                    },
                    ..old(db).method(self)
                },
            ),
            final(db).method(self).arguments.items@ == old(db).method(self).arguments.items@.update(
                index as int,
                Argument {
                    value_type: argument_type,
                    ..old(db).method(self).arguments.items@[index as int]
                },
            ),
            final(db).variables@ == old(db).variables@.update(
                old(db).method(self).arguments.items@[index as int].variable.0 as int,
                Variable {
                    value_type: variable_type,
                    ..old(db).variable(old(db).method(self).arguments.items@[index as int].variable)
                },
            ),
            final(db).same_but(old(db), set![Table::Methods, Table::Variables]),
            old(db).wf() && variable_type.valid(old(db).bounds()) && argument_type.valid(
                old(db).bounds(),
            ) ==> final(db).wf(),
    {
        let ghost before = *db;
        db.methods[self.0 as usize].arguments.items[index].value_type = argument_type;
        let variable = db.methods[self.0 as usize].arguments.items[index].variable;
        let ghost mid = *db;
        proof {
            assert(mid.method(self).arguments.items@ =~= before.method(
                self,
            ).arguments.items@.update(
                index as int,
                Argument {
                    value_type: argument_type,
                    ..before.method(self).arguments.items@[index as int]
                },
            ));
            assert(mid.methods@ =~= before.methods@.update(
                self.0 as int,
                Method {
                    arguments: Arguments {
                        items: mid.method(self).arguments.items,
                        ..before.method(self).arguments
                    },
                    ..before.method(self)
                },
            ));
            if before.wf() && argument_type.valid(before.bounds()) {
                assert(before.methods@[self.0 as int].wf(before.bounds()));
                assert(mid.methods@[self.0 as int].arguments.linked());
                assert(mid.methods@[self.0 as int].wf(mid.bounds()));
                assert(mid.wf());
            }
        }
        variable.set_value_type(db, variable_type);
    }

    /// The place and the type of the argument named `name`.
    pub fn named_argument(self, db: &Database, name: &str) -> (r: Option<(usize, TypeRef)>)
        requires
            db.has_method(self),
            db.method(self).arguments.linked(),
        ensures
            match r {
                Some((index, value_type)) => index < db.method(self).arguments.items@.len()
                    && db.method(self).arguments.items@[index as int].name@ == name@ && db.method(
                    self,
                ).arguments.items@[index as int].value_type == value_type,
                None => !holds_name(db.method(self).arguments.names.entries(), name@),
            },
    {
        match db.methods[self.0 as usize].arguments.get(name) {
            Some(a) => Some((a.index, a.value_type)),
            None => None,
        }
    }

    pub fn number_of_arguments(self, db: &Database) -> (r: usize)
        requires
            db.has_method(self),
        ensures
            r == db.method(self).arguments.items@.len(),
    {
        db.methods[self.0 as usize].arguments.len()
    }

    /// Adds a copy of the method that belongs to `module`, and returns its ID.
    pub fn copy_method(self, db: &mut Database, module: ModuleId) -> (id: MethodId)
        requires
            old(db).wf(),
            old(db).has_method(self),
            old(db).methods@.len() < u32::MAX,
        ensures
            id.0 == old(db).methods@.len(),
            final(db).method_added(old(db), final(db).method(id)),
            final(db).method(id).copy_of(&old(db).method(self), module),
            final(db).wf(),
    {
        proof {
            assert(db.methods@[self.0 as int].wf(db.bounds()));
        }
        let copy = db.methods[self.0 as usize].duplicate_into(module);
        let id = db.methods.len();
        let ghost before = *db;

        db.methods.push(copy);
        proof {
            before.lemma_wf_in_grows(before.bounds(), db.bounds());
            let source = before.methods@[self.0 as int];
            assert(source.wf(db.bounds()));
            assert(source.arguments.linked());
            assert(copy.arguments.linked()) by {
                assert forall|i: int| 0 <= i < copy.arguments.items@.len() implies (
                #[trigger] copy.arguments.names.entries()[i]) == (
                    copy.arguments.items@[i].name@,
                    i as usize,
                ) && copy.arguments.items@[i].index == i by {
                    assert(source.arguments.names.entries()[i] == (
                        source.arguments.items@[i].name@,
                        i as usize,
                    ));
                }
            }
            assert(copy.arguments.wf(db.bounds()));
            assert(copy.wf(db.bounds()));
        }
        MethodId(id as u32)
    }

    /// Turns the method into a destructor. Destructors are always called
    /// through dropper methods, so they are inlined into their droppers.
    pub fn mark_as_destructor(self, db: &mut Database)
        requires
            old(db).has_method(self),
        ensures
            final(db).method_changed(
                old(db),
                self,
                Method { kind: MethodKind::Destructor, inline: Inline::Always,
                    ..old(db).method(self) },
            ),
            old(db).wf() ==> final(db).wf(),
    {
        db.methods[self.0 as usize].kind = MethodKind::Destructor;
        db.methods[self.0 as usize].inline = Inline::Always;
        assert(db.methods@ =~= old(db).methods@.update(
            self.0 as int,
            Method { kind: MethodKind::Destructor, inline: Inline::Always, ..old(db).method(self) },
        ));
    }

    /// True if the value that the method returns is of no use: the method
    /// returns nil.
    pub fn ignore_return_value(self, db: &Database) -> (r: bool)
        requires
            db.has_method(self),
        ensures
            r == (db.method(self).return_type == TypeRef::owned_instance(NIL_ID)),
    {
        db.methods[self.0 as usize].return_type == TypeRef::nil()
    }

    /// Records that the method has access to the field `id` under `name`, with
    /// the type `value_type`.
    pub fn set_field_type(self, db: &mut Database, name: String, id: FieldId, value_type: TypeRef)
        requires
            old(db).has_method(self),
            old(db).method(self).field_types.wf(),
        ensures
            final(db).method_changed(
                old(db),
                self,
                Method { field_types: final(db).method(self).field_types, ..old(db).method(self) },
            ),
            final(db).method(self).field_types.wf(),
            final(db).method(self).field_types@ == old(db).method(self).field_types@.insert(
                name@,
                (id, value_type),
            ),
            final(db).method(self).field_types.order() == (if old(db).method(
                self,
            ).field_types@.contains_key(name@) {
                old(db).method(self).field_types.order()
            } else {
                old(db).method(self).field_types.order().push(name@)
            }),
            old(db).wf() && old(db).has_field(id) && value_type.valid(old(db).bounds())
                ==> final(db).wf(),
    {
        let ghost before = *db;
        db.methods[self.0 as usize].field_types.insert(name, (id, value_type));
        proof {
            assert(db.methods@ =~= before.methods@.update(
                self.0 as int,
                Method { field_types: db.method(self).field_types, ..before.method(self) },
            ));
            if before.wf() && before.has_field(id) && value_type.valid(before.bounds()) {
                assert(before.methods@[self.0 as int].wf(before.bounds()));
                assert(db.methods@[self.0 as int].wf(db.bounds()));
            }
        }
    }

    pub fn field_id_and_type(self, db: &Database, name: &str) -> (r: Option<(FieldId, TypeRef)>)
        requires
            db.has_method(self),
        ensures
            r == db.method(self).field_types.lookup(name@),
    {
        db.methods[self.0 as usize].field_types.get(name)
    }

    /// The fields that the method has access to with their types, in the order
    /// in which their names were first recorded.
    pub fn fields(self, db: &Database) -> (r: Vec<(FieldId, TypeRef)>)
        requires
            db.has_method(self),
            db.method(self).field_types.wf(),
        ensures
            r@ == db.method(self).field_types.ordered_values(),
    {
        db.methods[self.0 as usize].field_types.values()
    }

    /// Adds `argument` after the arguments that the method has. The place that
    /// `argument` names for itself is not looked at.
    pub fn add_argument(self, db: &mut Database, argument: Argument)
        requires
            old(db).has_method(self),
            old(db).method(self).arguments.linked(),
            !holds_name(old(db).method(self).arguments.names.entries(), argument.name@),
        ensures
            final(db).method_changed(
                old(db),
                self,
                Method { arguments: final(db).method(self).arguments, ..old(db).method(self) },
            ),
            final(db).method(self).arguments.linked(),
            final(db).method(self).arguments.items@ == old(db).method(self).arguments.items@.push(
                Argument { index: old(db).method(self).arguments.items@.len() as usize,
                    ..argument },
            ),
            old(db).wf() && argument.value_type.valid(old(db).bounds()) ==> final(db).wf(),
    {
        let ghost before = *db;
        db.methods[self.0 as usize].arguments.new_argument(
            argument.name.clone(),
            argument.value_type,
            argument.variable,
        );
        proof {
            assert(db.methods@ =~= before.methods@.update(
                self.0 as int,
                Method { arguments: db.method(self).arguments, ..before.method(self) },
            ));
            if before.wf() && argument.value_type.valid(before.bounds()) {
                assert(before.methods@[self.0 as int].wf(before.bounds()));
                assert(db.methods@[self.0 as int].wf(db.bounds()));
            }
        }
    }

    pub fn set_main(self, db: &mut Database)
        requires
            old(db).has_method(self),
        ensures
            final(db).method_changed(old(db), self, Method { main: true, ..old(db).method(self) }),
            old(db).wf() ==> final(db).wf(),
    {
        db.methods[self.0 as usize].main = true;
    }

    pub fn is_main(self, db: &Database) -> (r: bool)
        requires
            db.has_method(self),
        ensures
            r == db.method(self).main,
    {
        db.methods[self.0 as usize].main
    }

    pub fn bounds(self, db: &Database) -> (r: &TypeBounds)
        requires
            db.has_method(self),
        ensures
            *r == db.method(self).bounds,
    {
        &db.methods[self.0 as usize].bounds
    }

    pub fn set_bounds(self, db: &mut Database, bounds: TypeBounds)
        requires
            old(db).has_method(self),
        ensures
            final(db).method_changed(old(db), self, Method { bounds, ..old(db).method(self) }),
            old(db).wf() && bounds.wf() ==> final(db).wf(),
    {
        db.methods[self.0 as usize].bounds = bounds;
    }

    /// A method of C that returns nil has no return type. Every other method
    /// has one.
    pub fn has_return_type(self, db: &Database) -> (r: bool)
        requires
            db.has_method(self),
        ensures
            r == !(db.method(self).call_convention is C && db.method(self).return_type
                == TypeRef::owned_instance(NIL_ID)),
    {
        let method = &db.methods[self.0 as usize];

        if matches!(method.call_convention, CallConvention::C) {
            method.return_type != TypeRef::nil()
        } else {
            true
        }
    }
}

impl MethodId {
    /// Records `method` as the specialization of this method for `shapes`.
    pub fn add_specialization(self, db: &mut Database, shapes: Vec<Shape>, method: MethodId)
        requires
            old(db).has_method(self),
            old(db).method(self).specializations.wf(),
        ensures
            final(db).method_changed(
                old(db),
                self,
                Method { specializations: final(db).method(self).specializations,
                    ..old(db).method(self) },
            ),
            final(db).method(self).specializations.wf(),
            final(db).method(self).specializations@ == old(db).method(self).specializations@.insert(
                shapes@,
                method,
            ),
            old(db).wf() ==> final(db).wf(),
    {
        let ghost before = *db;
        db.methods[self.0 as usize].specializations.insert(shapes, method);
        proof {
            assert(db.methods@ =~= before.methods@.update(
                self.0 as int,
                Method { specializations: db.method(self).specializations, ..before.method(self) },
            ));
            if before.wf() {
                assert(before.methods@[self.0 as int].wf(before.bounds()));
                assert(db.methods@[self.0 as int].wf(db.bounds()));
            }
        }
    }

    pub fn set_shapes(self, db: &mut Database, shapes: Vec<Shape>)
        requires
            old(db).has_method(self),
        ensures
            final(db).method_changed(old(db), self, Method { shapes, ..old(db).method(self) }),
            old(db).wf() ==> final(db).wf(),
    {
        db.methods[self.0 as usize].shapes = shapes;
    }

    pub fn shapes(self, db: &Database) -> (r: &Vec<Shape>)
        requires
            db.has_method(self),
        ensures
            *r == db.method(self).shapes,
    {
        &db.methods[self.0 as usize].shapes
    }

    /// The specialization of the method for `shapes`, if one was recorded.
    pub fn specialization(self, db: &Database, shapes: &[Shape]) -> (r: Option<MethodId>)
        requires
            db.has_method(self),
            db.method(self).specializations.wf(),
        ensures
            r == db.method(self).specializations.lookup(shapes@),
    {
        db.methods[self.0 as usize].specializations.get(shapes)
    }

    /// The specializations of the method, in the order in which their shapes
    /// were first recorded.
    pub fn specializations(self, db: &Database) -> (r: Vec<MethodId>)
        requires
            db.has_method(self),
        ensures
            r@ == db.method(self).specializations.values@,
    {
        db.methods[self.0 as usize].specializations.values()
    }

    /// Adds a method to specialize this method into: a method with the same
    /// module, location, name, visibility, kind, source and inlining, and
    /// nothing else.
    pub fn clone_for_specialization(self, db: &mut Database) -> (id: MethodId)
        requires
            old(db).has_method(self),
            old(db).methods@.len() < METHODS_LIMIT,
        ensures
            id.0 == old(db).methods@.len(),
            final(db).method_added(old(db), final(db).method(id)),
            final(db).method(id).module == old(db).method(self).module,
            final(db).method(id).location == old(db).method(self).location,
            final(db).method(id).name == old(db).method(self).name,
            final(db).method(id).visibility == old(db).method(self).visibility,
            final(db).method(id).kind == old(db).method(self).kind,
            final(db).method(id).source == old(db).method(self).source,
            final(db).method(id).inline == old(db).method(self).inline,
            final(db).method(id).blank(),
            old(db).wf() ==> final(db).wf(),
    {
        let ghost before = *db;
        let old = &db.methods[self.0 as usize];
        let module = old.module;
        let location = old.location;
        let name = old.name.clone();
        let vis = old.visibility;
        let kind = old.kind;
        let source = old.source;
        let inline = old.inline;
        let new = Method::allocate(db, module, location, name, vis, kind);
        let ghost mid = *db;

        proof {
            if before.wf() {
                assert(before.methods@[self.0 as int].wf(before.bounds()));
            }
        }
        new.set_source(db, source);
        new.set_inline(db, inline);
        proof {
            assert(db.methods@ =~= before.methods@.push(db.method(new)));
        }
        new
    }

    pub fn is_generic(self, db: &Database) -> (r: bool)
        requires
            db.has_method(self),
        ensures
            r == (db.method(self).type_parameters.entries().len() > 0),
    {
        !db.methods[self.0 as usize].type_parameters.is_empty()
    }

    /// The method of a trait that this method implements or inherits, if it
    /// does.
    pub fn original_method(self, db: &Database) -> (r: Option<MethodId>)
        requires
            db.has_method(self),
        ensures
            r == (match db.method(self).source {
                MethodSource::Direct => None,
                MethodSource::Implemented(_, v) | MethodSource::Inherited(_, v) => Some(v),
            }),
            db.wf() && r is Some ==> db.has_method(r.unwrap()),
    {
        proof {
            if db.wf() {
                assert(db.methods@[self.0 as int].wf(db.bounds()));
            }
        }
        match db.methods[self.0 as usize].source {
            MethodSource::Direct => None,
            MethodSource::Implemented(_, v) | MethodSource::Inherited(_, v) => Some(v),
        }
    }

    /// The instance of the trait that this method implements or inherits a
    /// method of, if it does.
    pub fn implemented_trait_instance(self, db: &Database) -> (r: Option<TraitInstance>)
        requires
            db.has_method(self),
        ensures
            r == (match db.method(self).source {
                MethodSource::Direct => None,
                MethodSource::Implemented(v, _) | MethodSource::Inherited(v, _) => Some(v),
            }),
    {
        match db.methods[self.0 as usize].source {
            MethodSource::Direct => None,
            MethodSource::Implemented(v, _) | MethodSource::Inherited(v, _) => Some(v),
        }
    }

    /// Returns the module in which the method is defined.
    ///
    /// For default trait methods that aren't overwritten, this returns the
    /// module in which the trait is defined, _not_ the module in which it was
    /// implemented.
    pub fn source_module(self, db: &Database) -> (r: ModuleId)
        requires
            db.has_method(self),
            db.method(self).source matches MethodSource::Inherited(ins, _) ==> db.has_trait(
                ins.instance_of,
            ),
        ensures
            r == db.defining_module(self),
    {
        let m = &db.methods[self.0 as usize];

        match m.source {
            MethodSource::Direct | MethodSource::Implemented(_, _) => m.module,
            MethodSource::Inherited(ins, _) => db.traits[ins.instance_of().0 as usize].module,
        }
    }

    pub fn uses_c_calling_convention(self, db: &Database) -> (r: bool)
        requires
            db.has_method(self),
        ensures
            r == (db.method(self).call_convention is C),
    {
        matches!(db.methods[self.0 as usize].call_convention, CallConvention::C)
    }

    pub fn use_c_calling_convention(self, db: &mut Database)
        requires
            old(db).has_method(self),
        ensures
            final(db).method_changed(
                old(db),
                self,
                Method { call_convention: CallConvention::C, ..old(db).method(self) },
            ),
            old(db).wf() ==> final(db).wf(),
    {
        db.methods[self.0 as usize].call_convention = CallConvention::C;
    }

    pub fn call_convention(self, db: &Database) -> (r: CallConvention)
        requires
            db.has_method(self),
        ensures
            r == db.method(self).call_convention,
    {
        db.methods[self.0 as usize].call_convention
    }

    pub fn always_inline(self, db: &mut Database)
        requires
            old(db).has_method(self),
        ensures
            final(db).method_changed(
                old(db),
                self,
                Method { inline: Inline::Always, ..old(db).method(self) },
            ),
            old(db).wf() ==> final(db).wf(),
    {
        db.methods[self.0 as usize].inline = Inline::Always;
    }

    pub fn set_inline(self, db: &mut Database, inline: Inline)
        requires
            old(db).has_method(self),
        ensures
            final(db).method_changed(old(db), self, Method { inline, ..old(db).method(self) }),
            old(db).wf() ==> final(db).wf(),
    {
        db.methods[self.0 as usize].inline = inline;
    }

    pub fn inline(self, db: &Database) -> (r: Inline)
        requires
            db.has_method(self),
        ensures
            r == db.method(self).inline,
    {
        db.methods[self.0 as usize].inline
    }
}

impl Block for MethodId {
    open spec fn exists_in(&self, db: &Database) -> bool {
        db.has_method(*self)
    }

    open spec fn arguments_in(&self, db: &Database) -> Arguments {
        db.method(*self).arguments
    }

    open spec fn return_type_in(&self, db: &Database) -> TypeRef {
        db.method(*self).return_type
    }

    fn new_argument(
        &self,
        db: &mut Database,
        name: String,
        variable_type: TypeRef,
        argument_type: TypeRef,
        location: Location,
    ) -> (id: VariableId)
        ensures
            final(db).methods@ == old(db).methods@.update(
                self.0 as int,
                Method { arguments: final(db).method(*self).arguments, ..old(db).method(*self) },
            ),
            final(db).same_but(old(db), set![Table::Methods, Table::Variables]),
    {
        let ghost before = *db;
        let var = Variable::allocate(db, name.clone(), variable_type, false, location);
        let ghost mid = *db;

        db.methods[self.0 as usize].arguments.new_argument(name, argument_type, var);
        proof {
            assert(db.methods@ =~= before.methods@.update(
                self.0 as int,
                Method { arguments: db.method(*self).arguments, ..before.method(*self) },
            ));
            if before.wf() && variable_type.valid(before.bounds()) && argument_type.valid(
                before.bounds(),
            ) {
                assert(mid.wf());
                argument_type.lemma_valid_grows(before.bounds(), mid.bounds());
                assert(mid.methods@[self.0 as int].wf(mid.bounds()));
                assert(db.methods@[self.0 as int].wf(db.bounds()));
            }
        }
        var
    }

    /// Sets the return type. A method that never returns is never inlined: it
    /// can only be called once, upon which the program terminates.
    fn set_return_type(&self, db: &mut Database, typ: TypeRef)
        ensures
            final(db).method_changed(
                old(db),
                *self,
                Method {
                    return_type: typ,
                    inline: if typ is Never {
                        Inline::Never
                    } else {
                        old(db).method(*self).inline
                    },
                    ..old(db).method(*self)
                },
            ),
    {
        if let TypeRef::Never = typ {
            db.methods[self.0 as usize].inline = Inline::Never;
        }
        db.methods[self.0 as usize].return_type = typ;
        assert(db.methods@ =~= old(db).methods@.update(
            self.0 as int,
            Method {
                return_type: typ,
                inline: if typ is Never {
                    Inline::Never
                } else {
                    old(db).method(*self).inline
                },
                ..old(db).method(*self)
            },
        ));
    }

    fn return_type(&self, db: &Database) -> (r: TypeRef) {
        db.methods[self.0 as usize].return_type
    }
}

/// True for the kinds of methods that are called on an instance.
pub open spec fn instance_kind(kind: MethodKind) -> bool {
    kind is Async || kind is AsyncMutable || kind is Instance || kind is Moving || kind is Mutable
        || kind is Destructor
}

} // verus!
