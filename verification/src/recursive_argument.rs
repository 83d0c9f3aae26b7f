//! Looking up a type argument through type parameters that are assigned type
//! parameters.
use vstd::prelude::*;
use crate::arguments::TypeArguments;
use crate::database::{arguments_valid, Database};
use crate::type_ref::{TypeParameterId, TypeRef};

verus! {

impl TypeArguments {
    /// Follows type parameters that are assigned type parameters, starting at
    /// the type `found`, for at most `fuel` steps. The walk ends with a type
    /// that is no type parameter, that is a parameter without a type, or that
    /// is a parameter assigned to itself. It gives nothing if it has not ended
    /// after `fuel` steps.
    pub open spec fn followed(&self, db: &Database, found: TypeRef, fuel: nat) -> Option<TypeRef>
        decreases fuel,
    {
        match found.spec_as_type_parameter(db) {
            None => Some(found),
            Some(id) => match self.lookup(id) {
                None => Some(found),
                Some(next) => if next == found {
                    Some(found)
                } else if fuel == 0 {
                    None
                } else {
                    self.followed(db, next, (fuel - 1) as nat)
                },
            },
        }
    }

    /// The walk that starts at the type `found` ends.
    pub open spec fn follows_to_end(&self, db: &Database, found: TypeRef) -> bool {
        exists|fuel: nat| self.followed(db, found, fuel) is Some
    }

    /// The type that `parameter` stands for in the end: the type that it is
    /// assigned, or, if that is a type parameter with a type of its own, the
    /// type which that one stands for in the end. A parameter that is assigned
    /// to itself stands for itself.
    pub open spec fn spec_get_recursive(&self, db: &Database, parameter: TypeParameterId) -> Option<
        TypeRef,
    > {
        match self.lookup(parameter) {
            None => None,
            Some(found) => self.followed(
                db,
                found,
                choose|fuel: nat| self.followed(db, found, fuel) is Some,
            ),
        }
    }

    /// The type that `parameter` stands for in the end: see
    /// `spec_get_recursive`. The walk through the parameters must end, which
    /// it does unless parameters are assigned each other in a circle of two or
    /// more.
    pub fn get_recursive(&self, db: &Database, parameter: TypeParameterId) -> (r: Option<TypeRef>)
        requires
            db.wf(),
            self.wf(),
            arguments_valid(self, db.bounds()),
            self.lookup(parameter) matches Some(found) ==> self.follows_to_end(db, found),
        ensures
            r == self.spec_get_recursive(db, parameter),
            r is Some <==> self.lookup(parameter) is Some,
    {
        let mut typ = match self.get(parameter) {
            Some(typ) => typ,
            None => {
                return None;
            },
        };
        let ghost mut fuel = choose|fuel: nat| self.followed(db, typ, fuel) is Some;
        let ghost end = self.followed(db, typ, fuel);

        loop
            invariant
                db.wf(),
                self.wf(),
                arguments_valid(self, db.bounds()),
                typ.valid(db.bounds()),
                end is Some,
                self.followed(db, typ, fuel) == end,
                end == self.spec_get_recursive(db, parameter),
            decreases fuel,
        {
            let id = match typ.as_type_parameter(db) {
                Some(id) => id,
                None => {
                    return Some(typ);
                },
            };

            match self.get(id) {
                Some(new) => {
                    if new == typ {
                        return Some(typ);
                    }
                    proof {
                        assert(self@.contains_key(id.0));
                        fuel = (fuel - 1) as nat;
                    }
                    typ = new;
                },
                None => {
                    return Some(typ);
                },
            }
        }
    }
}

} // verus!
