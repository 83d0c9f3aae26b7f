//! Closures: anonymous functions that can capture outer variables.
use vstd::prelude::*;
use crate::block::Block;
use crate::collections::copies::copy_vec;
use crate::collections::name_index::holds_name;
use crate::database::{Argument, Arguments, Closure, Database, Table, Variable};
use crate::location::Location;
use crate::type_ref::{Bounds, ClosureId, TypeRef, VariableId};

verus! {

/// The name of the anonymous argument that is added as argument number
/// `position`.
pub uninterp spec fn anonymous_argument_name(position: usize) -> Seq<char>;

/// `format!` with the pattern `_arg{}`: the name of an anonymous argument is
/// made from the number of arguments that stand before it, and from nothing
/// else.
#[verifier::external_body]
fn format_anonymous_argument_name(position: usize) -> (r: String)
    ensures
        r@ == anonymous_argument_name(position),
{
    format!("_arg{}", position)
}

impl Closure {
    /// Adds a closure to the database and returns its ID.
    pub fn allocate(db: &mut Database, moving: bool) -> (id: ClosureId)
        requires
            old(db).closures@.len() < u32::MAX,
        ensures
            id.0 == old(db).closures@.len(),
            final(db).closure_added(old(db), final(db).closure(id)),
            final(db).closure(id).fresh(moving),
            old(db).wf() ==> final(db).wf(),
    {
        let closure = Closure::new(moving);

        Closure::add(db, closure)
    }

    /// Adds `closure` to the database and returns its ID.
    pub fn add(db: &mut Database, closure: Closure) -> (id: ClosureId)
        requires
            old(db).closures@.len() < u32::MAX,
        ensures
            id.0 == old(db).closures@.len(),
            final(db).closure_added(old(db), closure),
            old(db).wf() && closure.wf(old(db).bounds()) ==> final(db).wf(),
    {
        let id = db.closures.len();
        let ghost before = *db;
        let ghost added = closure;

        db.closures.push(closure);
        proof {
            let closure = added;
            if before.wf() && closure.wf(before.bounds()) {
                before.lemma_wf_in_grows(before.bounds(), db.bounds());
                let small = before.bounds();
                let large = db.bounds();
                assert forall|j: int| 0 <= j < closure.arguments.items@.len() implies (
                #[trigger] closure.arguments.items@[j]).value_type.valid(large) by {
                    closure.arguments.items@[j].value_type.lemma_valid_grows(small, large);
                }
                assert forall|j: int| 0 <= j < closure.captured@.len() implies (
                #[trigger] closure.captured@[j]).1.valid(large) by {
                    closure.captured@[j].1.lemma_valid_grows(small, large);
                }
                closure.return_type.lemma_valid_grows(small, large);
                match closure.captured_self_type {
                    Some(typ) => typ.lemma_valid_grows(small, large),
                    None => {},
                }
            }
        }
        ClosureId(id)
    }

    /// The closure captures nothing, takes no arguments, and its return type
    /// is unknown.
    pub open spec fn fresh(&self, moving: bool) -> bool {
        &&& self.moving == moving
        &&& self.captured_self_type is None
        &&& self.captured@.len() == 0
        &&& self.arguments.linked()
        &&& self.arguments.items@.len() == 0
        &&& self.return_type == TypeRef::Unknown
    }

    pub fn new(moving: bool) -> (r: Self)
        ensures
            r.fresh(moving),
            forall|b: Bounds| r.wf(b),
    {
        Closure {
            moving,
            captured_self_type: None,
            captured: Vec::new(),
            arguments: Arguments::new(),
            return_type: TypeRef::Unknown,
        }
    }
}

impl ClosureId {
    pub fn number_of_arguments(self, db: &Database) -> (r: usize)
        requires
            db.has_closure(self),
        ensures
            r == db.closure(self).arguments.items@.len(),
    {
        db.closures[self.0].arguments.len()
    }

    /// The type of the argument at place `index`, if there are that many
    /// arguments.
    pub fn positional_argument_input_type(self, db: &Database, index: usize) -> (r: Option<TypeRef>)
        requires
            db.has_closure(self),
        ensures
            r == db.closure(self).arguments.spec_type_at(index as int),
    {
        db.closures[self.0].arguments.type_at(index)
    }

    /// Adds an argument that has no name of its own after the arguments that
    /// the closure has. It is named after its place, and no argument may have
    /// that name yet.
    ///
    /// Anonymous arguments can never be used, so no variable is made for them:
    /// the argument names the variable with ID 0.
    pub fn new_anonymous_argument(self, db: &mut Database, value_type: TypeRef)
        requires
            old(db).has_closure(self),
            old(db).closure(self).arguments.linked(),
            !holds_name(
                old(db).closure(self).arguments.names.entries(),
                anonymous_argument_name(old(db).closure(self).arguments.items@.len() as usize),
            ),
        ensures
            final(db).closure_changed(
                old(db),
                self,
                Closure { arguments: final(db).closure(self).arguments, ..old(db).closure(self) },
            ),
            final(db).closure(self).arguments.linked(),
            final(db).closure(self).arguments.items@.len() == old(db).closure(
                self,
            ).arguments.items@.len() + 1,
            final(db).closure(self).arguments.items@.subrange(
                0,
                old(db).closure(self).arguments.items@.len() as int,
            ) == old(db).closure(self).arguments.items@,
            final(db).closure(self).arguments.items@.last().index == old(db).closure(
                self,
            ).arguments.items@.len(),
            final(db).closure(self).arguments.items@.last().name@ == anonymous_argument_name(
                old(db).closure(self).arguments.items@.len() as usize,
            ),
            final(db).closure(self).arguments.items@.last().value_type == value_type,
            final(db).closure(self).arguments.items@.last().variable == VariableId(0),
            old(db).wf() && value_type.valid(old(db).bounds()) ==> final(db).wf(),
    {
        let ghost before = *db;
        let var = VariableId(0);
        let name = format_anonymous_argument_name(db.closures[self.0].arguments.len());

        db.closures[self.0].arguments.new_argument(name, value_type, var);
        proof {
            assert(db.closures@ =~= before.closures@.update(
                self.0 as int,
                Closure { arguments: db.closure(self).arguments, ..before.closure(self) },
            ));
            assert(db.closure(self).arguments.items@.subrange(
                0,
                before.closure(self).arguments.items@.len() as int,
            ) =~= before.closure(self).arguments.items@);
            if before.wf() && value_type.valid(before.bounds()) {
                assert(before.closures@[self.0 as int].wf(before.bounds()));
                assert(db.closures@[self.0 as int].wf(db.bounds()));
            }
        }
    }

    /// Adds an anonymous argument as `new_anonymous_argument` does, unless an
    /// argument has the name that the new one would get. Returns whether the
    /// argument was added.
    pub fn add_anonymous_argument(self, db: &mut Database, value_type: TypeRef) -> (added: bool)
        requires
            old(db).has_closure(self),
            old(db).closure(self).arguments.linked(),
        ensures
            added == !holds_name(
                old(db).closure(self).arguments.names.entries(),
                anonymous_argument_name(old(db).closure(self).arguments.items@.len() as usize),
            ),
            !added ==> *final(db) == *old(db),
            added ==> {
                &&& final(db).closure_changed(
                    old(db),
                    self,
                    Closure { arguments: final(db).closure(self).arguments,
                        ..old(db).closure(self) },
                )
                &&& final(db).closure(self).arguments.linked()
                &&& final(db).closure(self).arguments.items@.len() == old(db).closure(
                    self,
                ).arguments.items@.len() + 1
                &&& final(db).closure(self).arguments.items@.last().value_type == value_type
            },
            old(db).wf() && value_type.valid(old(db).bounds()) ==> final(db).wf(),
    {
        let name = format_anonymous_argument_name(db.closures[self.0].arguments.len());
        if db.closures[self.0].arguments.names.contains_key(name.as_str()) {
            false
        } else {
            self.new_anonymous_argument(db, value_type);
            true
        }
    }

    pub fn is_moving(self, db: &Database) -> (r: bool)
        requires
            db.has_closure(self),
        ensures
            r == db.closure(self).moving,
    {
        db.closures[self.0].moving
    }

    pub fn set_captured_self_type(self, db: &mut Database, value_type: TypeRef)
        requires
            old(db).has_closure(self),
        ensures
            final(db).closure_changed(
                old(db),
                self,
                Closure { captured_self_type: Some(value_type), ..old(db).closure(self) },
            ),
            old(db).wf() && value_type.valid(old(db).bounds()) ==> final(db).wf(),
    {
        db.closures[self.0].captured_self_type = Some(value_type);
    }

    pub fn captured_self_type(self, db: &Database) -> (r: Option<TypeRef>)
        requires
            db.has_closure(self),
        ensures
            r == db.closure(self).captured_self_type,
    {
        db.closures[self.0].captured_self_type
    }

    /// Records that the closure captures `variable` as `captured_as`. A capture
    /// that was recorded before is not recorded again.
    pub fn add_capture(self, db: &mut Database, variable: VariableId, captured_as: TypeRef)
        requires
            old(db).has_closure(self),
        ensures
            final(db).closure_changed(
                old(db),
                self,
                Closure { captured: final(db).closure(self).captured, ..old(db).closure(self) },
            ),
            final(db).closure(self).captured@ == (if old(db).closure(self).captured@.contains(
                (variable, captured_as),
            ) {
                old(db).closure(self).captured@
            } else {
                old(db).closure(self).captured@.push((variable, captured_as))
            }),
            old(db).wf() && captured_as.valid(old(db).bounds()) ==> final(db).wf(),
    {
        let ghost before = *db;
        let mut found = false;
        let mut i: usize = 0;
        while i < db.closures[self.0].captured.len()
            invariant
                *db == before,
                db.has_closure(self),
                i <= db.closure(self).captured@.len(),
                found <==> exists|j: int|
                    0 <= j < i && db.closure(self).captured@[j] == (variable, captured_as),
            decreases db.closure(self).captured@.len() - i,
        {
            let pair = db.closures[self.0].captured[i];
            if pair.0 == variable && pair.1 == captured_as {
                found = true;
            }
            i += 1;
        }
        if !found {
            db.closures[self.0].captured.push((variable, captured_as));
        }
        proof {
            assert(db.closures@ =~= before.closures@.update(
                self.0 as int,
                Closure { captured: db.closure(self).captured, ..before.closure(self) },
            ));
            if before.wf() && captured_as.valid(before.bounds()) {
                assert(before.closures@[self.0 as int].wf(before.bounds()));
                assert(db.closures@[self.0 as int].wf(db.bounds()));
            }
        }
    }

    /// The captured variables with the types they are captured as, in the
    /// order in which the captures were first recorded.
    pub fn captured(self, db: &Database) -> (r: Vec<(VariableId, TypeRef)>)
        requires
            db.has_closure(self),
        ensures
            r@ == db.closure(self).captured@,
    {
        copy_vec(&db.closures[self.0].captured)
    }

    /// Copies of the arguments, in the order of their definition.
    pub fn arguments(self, db: &Database) -> (r: Vec<Argument>)
        requires
            db.has_closure(self),
        ensures
            r@ == db.closure(self).arguments.items@,
    {
        db.closures[self.0].arguments.to_vec()
    }
}

impl Block for ClosureId {
    open spec fn exists_in(&self, db: &Database) -> bool {
        db.has_closure(*self)
    }

    open spec fn arguments_in(&self, db: &Database) -> Arguments {
        db.closure(*self).arguments
    }

    open spec fn return_type_in(&self, db: &Database) -> TypeRef {
        db.closure(*self).return_type
    }

    fn new_argument(
        &self,
        db: &mut Database,
        name: String,
        variable_type: TypeRef,
        argument_type: TypeRef,
        location: Location,
    ) -> (id: VariableId)
        ensures
            final(db).closures@ == old(db).closures@.update(
                self.0 as int,
                Closure { arguments: final(db).closure(*self).arguments, ..old(db).closure(*self) },
            ),
            final(db).same_but(old(db), set![Table::Closures, Table::Variables]),
    {
        let ghost before = *db;
        let var = Variable::allocate(db, name.clone(), variable_type, false, location);
        let ghost mid = *db;

        db.closures[self.0].arguments.new_argument(name, argument_type, var);
        proof {
            assert(db.closures@ =~= before.closures@.update(
                self.0 as int,
                Closure { arguments: db.closure(*self).arguments, ..before.closure(*self) },
            ));
            if before.wf() && variable_type.valid(before.bounds()) && argument_type.valid(
                before.bounds(),
            ) {
                assert(mid.wf());
                argument_type.lemma_valid_grows(before.bounds(), mid.bounds());
                assert(mid.closures@[self.0 as int].wf(mid.bounds()));
                assert(db.closures@[self.0 as int].wf(db.bounds()));
            }
        }
        var
    }

    fn set_return_type(&self, db: &mut Database, typ: TypeRef)
        ensures
            final(db).closure_changed(
                old(db),
                *self,
                Closure { return_type: typ, ..old(db).closure(*self) },
            ),
    {
        db.closures[self.0].return_type = typ;
    }

    fn return_type(&self, db: &Database) -> (r: TypeRef) {
        db.closures[self.0].return_type
    }
}

} // verus!
