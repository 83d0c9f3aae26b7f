//! Whether a value can be sent to another process.
//!
//! A closure can be sent if all it captures can be sent, and what it captures
//! may be closures again. The questions of this module are therefore asked
//! with a number of levels of closures, classes and type arguments to look
//! into, and are answered only if the look comes to an end.
use vstd::prelude::*;
use crate::database::Database;
use crate::type_ref::{ClosureId, FieldId, TypeId, TypeRef, VariableId};

verus! {

/// Whether a value of type `typ` can be sent to another process, looking into
/// at most `fuel` levels of closures: a unique value, `Never`, an error and a
/// placeholder without a value can; an owned closure can if all that it
/// captures can; any other value can if it is a value type.
pub open spec fn sendable(db: &Database, typ: TypeRef, fuel: nat) -> Option<bool>
    decreases fuel, 0nat, 0nat,
{
    match typ.resolved(db) {
        TypeRef::Uni(_) | TypeRef::Never | TypeRef::Error | TypeRef::Placeholder(_) => Some(true),
        TypeRef::Owned(TypeId::Closure(id)) => if fuel == 0 {
            None
        } else {
            closure_sendable(db, id, (fuel - 1) as nat)
        },
        resolved => Some(resolved.value_type_resolved(db)),
    }
}

/// Whether a closure can be inferred as unique, and so be sent: all that it
/// captures can be sent, and `self`, if it is captured, lives on the stack.
pub open spec fn closure_sendable(db: &Database, id: ClosureId, fuel: nat) -> Option<bool>
    decreases fuel, 2nat, 0nat,
{
    match captures_sendable(db, db.closure(id).captured@, 0, fuel) {
        None => None,
        Some(false) => Some(false),
        Some(true) => Some(
            match db.closure(id).captured_self_type {
                Some(typ) => typ.resolved(db).stack_resolved(db),
                None => true,
            },
        ),
    }
}

/// Whether all of `captured` from place `from` on can be sent. The captures
/// are looked at in order, up to the first that can't.
pub open spec fn captures_sendable(
    db: &Database,
    captured: Seq<(VariableId, TypeRef)>,
    from: int,
    fuel: nat,
) -> Option<bool>
    decreases fuel, 1nat, captured.len() - from,
{
    if from < 0 || from >= captured.len() {
        Some(true)
    } else {
        match sendable(db, captured[from].1, fuel) {
            None => None,
            Some(false) => Some(false),
            Some(true) => captures_sendable(db, captured, from + 1, fuel),
        }
    }
}

impl TypeRef {
    /// The question whether a value of this type can be sent has an answer:
    /// no closure captures itself, directly or through others.
    pub open spec fn sendable_known(self, db: &Database) -> bool {
        exists|fuel: nat| sendable(db, self, fuel) is Some
    }

    pub open spec fn spec_is_sendable(self, db: &Database) -> bool {
        sendable(db, self, choose|fuel: nat| sendable(db, self, fuel) is Some).unwrap()
    }

    /// Whether a value of this type can be sent to another process: see
    /// `sendable`.
    pub fn is_sendable(self, db: &Database) -> (r: bool)
        requires
            db.wf(),
            self.valid(db.bounds()),
            self.sendable_known(db),
        ensures
            r == self.spec_is_sendable(db),
    {
        self.is_sendable_within(db, Ghost(choose|fuel: nat| sendable(db, self, fuel) is Some))
    }

    pub(crate) fn is_sendable_within(self, db: &Database, Ghost(fuel): Ghost<nat>) -> (r: bool)
        requires
            db.wf(),
            self.valid(db.bounds()),
            sendable(db, self, fuel) is Some,
        ensures
            Some(r) == sendable(db, self, fuel),
        decreases fuel, 0nat, 0nat,
    {
        let resolved = self.resolve(db);
        match resolved {
            TypeRef::Uni(_) | TypeRef::Never | TypeRef::Error | TypeRef::Placeholder(_) => true,
            TypeRef::Owned(TypeId::Closure(id)) => id.can_infer_as_uni_within(
                db,
                Ghost((fuel - 1) as nat),
            ),
            _ => resolved.is_value_type_resolved(db),
        }
    }
}

impl ClosureId {
    /// The question whether the closure can be inferred as unique has an
    /// answer.
    pub open spec fn uni_known(self, db: &Database) -> bool {
        exists|fuel: nat| closure_sendable(db, self, fuel) is Some
    }

    /// Whether the closure can be inferred as unique: see `closure_sendable`.
    pub fn can_infer_as_uni(self, db: &Database) -> (r: bool)
        requires
            db.wf(),
            db.has_closure(self),
            self.uni_known(db),
        ensures
            Some(r) == closure_sendable(
                db,
                self,
                choose|fuel: nat| closure_sendable(db, self, fuel) is Some,
            ),
    {
        self.can_infer_as_uni_within(
            db,
            Ghost(choose|fuel: nat| closure_sendable(db, self, fuel) is Some),
        )
    }

    pub(crate) fn can_infer_as_uni_within(self, db: &Database, Ghost(fuel): Ghost<nat>) -> (r: bool)
        requires
            db.wf(),
            db.has_closure(self),
            closure_sendable(db, self, fuel) is Some,
        ensures
            Some(r) == closure_sendable(db, self, fuel),
        decreases fuel, 2nat, 0nat,
    {
        let closure = &db.closures[self.0];
        proof {
            assert(db.closures@[self.0 as int].wf(db.bounds()));
        }
        let mut i: usize = 0;
        while i < closure.captured.len()
            invariant
                db.wf(),
                db.has_closure(self),
                *closure == db.closure(self),
                closure.wf(db.bounds()),
                i <= closure.captured@.len(),
                captures_sendable(db, closure.captured@, i as int, fuel) == captures_sendable(
                    db,
                    closure.captured@,
                    0,
                    fuel,
                ),
                captures_sendable(db, closure.captured@, 0, fuel) is Some,
            decreases closure.captured@.len() - i,
        {
            let typ = closure.captured[i].1;
            proof {
                assert(closure.captured@[i as int].1.valid(db.bounds()));
            }
            if !typ.is_sendable_within(db, Ghost(fuel)) {
                return false;
            }
            i += 1;
        }
        match closure.captured_self_type {
            Some(typ) => typ.is_stack_allocated(db),
            None => true,
        }
    }
}

} // verus!
