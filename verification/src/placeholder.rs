//! Type inference placeholders: reading and assigning their values.
//!
//! A placeholder can be assigned another placeholder, so reading a value
//! follows a chain of placeholders. The ownership that a read site wants is
//! part of the reference to a placeholder, and is applied to the value when it
//! is read: the value that is stored is never changed by a read.
use vstd::prelude::*;
use crate::database::{Database, Table, TypePlaceholder};
use crate::type_ref::{Ownership, TypeParameterId, TypePlaceholderId, TypeRef};

verus! {

/// Following the placeholders that were assigned to placeholders, starting at
/// the placeholder numbered `id`, comes to a placeholder that holds another
/// kind of value after at most `fuel` steps.
pub open spec fn chain_ends(cells: Seq<TypePlaceholder>, id: int, fuel: nat) -> bool
    decreases fuel,
{
    &&& 0 <= id < cells.len()
    &&& match cells[id].value {
        TypeRef::Placeholder(next) => fuel > 0 && chain_ends(
            cells,
            next.id as int,
            (fuel - 1) as nat,
        ),
        _ => true,
    }
}

/// From the placeholder numbered `id` the chain of assigned placeholders comes
/// to an end.
pub open spec fn chain_finite(cells: Seq<TypePlaceholder>, id: int) -> bool {
    exists|fuel: nat| chain_ends(cells, id, fuel)
}

/// From every placeholder the chain of assigned placeholders comes to an end.
pub open spec fn chains_end(cells: Seq<TypePlaceholder>) -> bool {
    forall|id: int| 0 <= id < cells.len() ==> #[trigger] chain_finite(cells, id)
}

/// The placeholder numbered `target` is met within `fuel` steps when following
/// the chain of assigned placeholders from the placeholder numbered `from`.
pub open spec fn on_chain(cells: Seq<TypePlaceholder>, from: int, target: int, fuel: nat) -> bool
    decreases fuel,
{
    from == target || (fuel > 0 && 0 <= from < cells.len() && match cells[from].value {
        TypeRef::Placeholder(next) => on_chain(cells, next.id as int, target, (fuel - 1) as nat),
        _ => false,
    })
}

/// The placeholder numbered `target` is met when following the chain of
/// assigned placeholders from the placeholder numbered `from`.
pub open spec fn leads_to(cells: Seq<TypePlaceholder>, from: int, target: int) -> bool {
    exists|fuel: nat| on_chain(cells, from, target, fuel)
}

/// The last reference to a placeholder on the chain that starts with the
/// reference `id`, following at most `fuel` assigned placeholders.
pub open spec fn chain_last(cells: Seq<TypePlaceholder>, id: TypePlaceholderId,
    fuel: nat) -> TypePlaceholderId
    decreases fuel,
{
    match cells[id.id as int].value {
        TypeRef::Placeholder(next) if fuel > 0 => chain_last(cells, next, (fuel - 1) as nat),
        _ => id,
    }
}

/// A number of steps within which the chain from the placeholder numbered `id`
/// comes to an end.
pub open spec fn chain_fuel(cells: Seq<TypePlaceholder>, id: int) -> nat {
    choose|fuel: nat| chain_ends(cells, id, fuel)
}

/// A chain that ends within some number of steps ends within any larger
/// number too.
pub proof fn lemma_chain_more_fuel(cells: Seq<TypePlaceholder>, id: int, less: nat, more: nat)
    requires
        chain_ends(cells, id, less),
        less <= more,
    ensures
        chain_ends(cells, id, more),
    decreases less,
{
    if let TypeRef::Placeholder(next) = cells[id].value {
        lemma_chain_more_fuel(cells, next.id as int, (less - 1) as nat, (more - 1) as nat);
    }
}

/// Where a chain comes to an end does not depend on the number of steps that
/// were allowed for, as long as they suffice. The end is a placeholder that
/// does not hold a placeholder.
pub proof fn lemma_chain_last(cells: Seq<TypePlaceholder>, id: TypePlaceholderId, a: nat, b: nat)
    requires
        chain_ends(cells, id.id as int, a),
        chain_ends(cells, id.id as int, b),
    ensures
        chain_last(cells, id, a) == chain_last(cells, id, b),
        chain_last(cells, id, a).id < cells.len(),
        !(cells[chain_last(cells, id, a).id as int].value is Placeholder),
    decreases a,
{
    if let TypeRef::Placeholder(next) = cells[id.id as int].value {
        lemma_chain_last(cells, next, (a - 1) as nat, (b - 1) as nat);
    }
}

/// A chain stays as it is when a placeholder is added to the table.
pub proof fn lemma_chain_after_push(
    cells: Seq<TypePlaceholder>,
    added: TypePlaceholder,
    id: int,
    fuel: nat,
)
    requires
        chain_ends(cells, id, fuel),
    ensures
        chain_ends(cells.push(added), id, fuel),
    decreases fuel,
{
    if let TypeRef::Placeholder(next) = cells[id].value {
        lemma_chain_after_push(cells, added, next.id as int, (fuel - 1) as nat);
    }
}

/// Chains stay finite when a placeholder that holds no placeholder is added.
pub proof fn lemma_chains_end_after_push(cells: Seq<TypePlaceholder>, added: TypePlaceholder)
    requires
        chains_end(cells),
        !(added.value is Placeholder),
    ensures
        chains_end(cells.push(added)),
{
    let after = cells.push(added);
    assert forall|id: int| 0 <= id < after.len() implies #[trigger] chain_finite(after, id) by {
        if id < cells.len() {
            assert(chain_finite(cells, id));
            let fuel = choose|fuel: nat| chain_ends(cells, id, fuel);
            lemma_chain_after_push(cells, added, id, fuel);
        } else {
            assert(chain_ends(after, id, 0));
        }
    }
}

/// A chain that came to an end still does after a placeholder was given a
/// value that is no placeholder: the chain is cut short there at most.
proof fn lemma_chain_cut(
    cells: Seq<TypePlaceholder>,
    after: Seq<TypePlaceholder>,
    at: int,
    id: int,
    fuel: nat,
)
    requires
        chain_ends(cells, id, fuel),
        0 <= at < cells.len(),
        after.len() == cells.len(),
        forall|i: int| 0 <= i < cells.len() && i != at ==> after[i] == cells[i],
        !(after[at].value is Placeholder),
    ensures
        chain_ends(after, id, fuel),
    decreases fuel,
{
    if id != at {
        if let TypeRef::Placeholder(next) = cells[id].value {
            lemma_chain_cut(cells, after, at, next.id as int, (fuel - 1) as nat);
        }
    }
}

/// A chain that does not meet the placeholder numbered `at` is the same chain
/// after that placeholder was given another value.
proof fn lemma_chain_aside(
    cells: Seq<TypePlaceholder>,
    after: Seq<TypePlaceholder>,
    at: int,
    id: int,
    fuel: nat,
)
    requires
        chain_ends(cells, id, fuel),
        after.len() == cells.len(),
        forall|i: int| 0 <= i < cells.len() && i != at ==> after[i] == cells[i],
        !leads_to(cells, id, at),
    ensures
        chain_ends(after, id, fuel),
    decreases fuel,
{
    assert(!on_chain(cells, id, at, 0));
    if let TypeRef::Placeholder(next) = cells[id].value {
        assert(!leads_to(cells, next.id as int, at)) by {
            if leads_to(cells, next.id as int, at) {
                let f = choose|f: nat| on_chain(cells, next.id as int, at, f);
                assert(on_chain(cells, id, at, f + 1));
            }
        }
        lemma_chain_aside(cells, after, at, next.id as int, (fuel - 1) as nat);
    }
}

/// After the placeholder numbered `at` was assigned a placeholder from which
/// the chain ends within `rest` steps, a chain that ended within `fuel` steps
/// ends within `fuel + rest + 1` steps.
proof fn lemma_chain_joined(
    cells: Seq<TypePlaceholder>,
    after: Seq<TypePlaceholder>,
    at: int,
    next: TypePlaceholderId,
    rest: nat,
    id: int,
    fuel: nat,
)
    requires
        chain_ends(cells, id, fuel),
        0 <= at < cells.len(),
        after.len() == cells.len(),
        forall|i: int| 0 <= i < cells.len() && i != at ==> after[i] == cells[i],
        after[at].value == TypeRef::Placeholder(next),
        chain_ends(after, next.id as int, rest),
    ensures
        chain_ends(after, id, fuel + rest + 1),
    decreases fuel,
{
    if id == at {
        lemma_chain_more_fuel(after, next.id as int, rest, fuel + rest);
    } else if let TypeRef::Placeholder(following) = cells[id].value {
        lemma_chain_joined(cells, after, at, next, rest, following.id as int, (fuel - 1) as nat);
    }
}

/// Chains stay finite when a placeholder is assigned a value, unless the value
/// is a placeholder from which the chain leads back to the placeholder that is
/// assigned.
pub proof fn lemma_chains_end_after_assign(
    cells: Seq<TypePlaceholder>,
    after: Seq<TypePlaceholder>,
    at: int,
)
    requires
        chains_end(cells),
        0 <= at < cells.len(),
        after.len() == cells.len(),
        forall|i: int| 0 <= i < cells.len() && i != at ==> after[i] == cells[i],
        after[at].value matches TypeRef::Placeholder(next) ==> next.id < cells.len() && !leads_to(
            cells,
            next.id as int,
            at,
        ),
    ensures
        chains_end(after),
{
    assert forall|id: int| 0 <= id < after.len() implies #[trigger] chain_finite(after, id) by {
        assert(chain_finite(cells, id));
        let fuel = choose|fuel: nat| chain_ends(cells, id, fuel);
        match after[at].value {
            TypeRef::Placeholder(next) => {
                assert(chain_finite(cells, next.id as int));
                let rest = choose|rest: nat| chain_ends(cells, next.id as int, rest);
                lemma_chain_aside(cells, after, at, next.id as int, rest);
                lemma_chain_joined(cells, after, at, next, rest, id, fuel);
            },
            _ => {
                lemma_chain_cut(cells, after, at, id, fuel);
            },
        }
    }
}

impl TypeRef {
    /// `self`, which is no placeholder, under the given ownership. `Mut` and
    /// `UniMut` stand for borrows that are wanted whether or not the type
    /// allows them.
    pub open spec fn with_ownership(self, ownership: Ownership, db: &Database) -> TypeRef {
        match ownership {
            Ownership::Any => self,
            Ownership::Owned => self.owned_resolved(),
            Ownership::Uni => self.uni_resolved(db),
            Ownership::Ref => self.ref_resolved(db),
            Ownership::Mut => self.force_mut_resolved(db),
            Ownership::UniRef => self.uni_ref_resolved(),
            Ownership::UniMut => self.force_uni_mut_resolved(),
            Ownership::Pointer => self.pointer_resolved(),
        }
    }

    /// Putting a known and valid type under an ownership gives a known and
    /// valid type.
    pub proof fn lemma_with_ownership(self, ownership: Ownership, db: &Database)
        requires
            self.known(),
            self.valid(db.bounds()),
        ensures
            self.with_ownership(ownership, db).known(),
            self.with_ownership(ownership, db).valid(db.bounds()),
    {
    }
}

impl TypePlaceholder {
    /// Adds a placeholder to the database and returns a reference to it that
    /// asks for no ownership. The placeholder has no value yet.
    pub fn allocate(db: &mut Database, required: Option<TypeParameterId>) -> (id: TypePlaceholderId)
        requires
            old(db).type_placeholders@.len() < u32::MAX,
        ensures
            id.id == old(db).type_placeholders@.len(),
            id.ownership == Ownership::Any,
            final(db).placeholder_added(
                old(db),
                TypePlaceholder { value: TypeRef::Unknown, required },
            ),
            old(db).wf() ==> final(db).wf(),
            old(db).wf() ==> id.spec_value(final(db)) is None,
    {
        let id = db.type_placeholders.len() as u32;
        let typ = TypePlaceholder { value: TypeRef::Unknown, required };
        let ghost before = *db;

        db.type_placeholders.push(typ);
        proof {
            if before.wf() {
                before.lemma_wf_in_grows(before.bounds(), db.bounds());
                lemma_chains_end_after_push(before.type_placeholders@, typ);
                let r = TypePlaceholderId { id, ownership: Ownership::Any };
                assert(chain_ends(db.type_placeholders@, id as int, 0));
                lemma_chain_last(
                    db.type_placeholders@,
                    r,
                    0,
                    chain_fuel(db.type_placeholders@, id as int),
                );
            }
        }
        TypePlaceholderId { id, ownership: Ownership::Any }
    }
}

impl TypePlaceholderId {
    /// The reference at which the chain of assigned placeholders that starts
    /// with `self` comes to an end.
    pub open spec fn last(self, db: &Database) -> TypePlaceholderId {
        chain_last(
            db.type_placeholders@,
            self,
            chain_fuel(db.type_placeholders@, self.id as int),
        )
    }

    /// The value of the placeholder: what the last placeholder of the chain
    /// holds, under the ownership that the last reference of the chain asks
    /// for. There is no value as long as the last placeholder holds none.
    pub open spec fn spec_value(self, db: &Database) -> Option<TypeRef> {
        let typ = db.placeholder(self.last(db)).value;
        if typ.known() {
            Some(typ.with_ownership(self.last(db).ownership, db))
        } else {
            None
        }
    }

    /// A value that is read from a placeholder is neither a placeholder nor
    /// unknown, and it refers to what the database holds.
    pub proof fn lemma_value_known(self, db: &Database)
        requires
            db.wf(),
            db.has_placeholder(self),
        ensures
            self.spec_value(db) matches Some(v) ==> v.known() && v.valid(db.bounds()),
    {
        let cells = db.type_placeholders@;
        assert(chain_finite(cells, self.id as int));
        let fuel = chain_fuel(cells, self.id as int);
        lemma_chain_last(cells, self, fuel, fuel);
        let last = self.last(db);
        let typ = cells[last.id as int].value;
        assert(cells[last.id as int].wf(db.bounds()));
        if typ.known() {
            typ.lemma_with_ownership(last.ownership, db);
        }
    }

    /// The value of the placeholder: see `spec_value`.
    pub fn value(self, db: &Database) -> (r: Option<TypeRef>)
        requires
            db.wf(),
            db.has_placeholder(self),
        ensures
            r == self.spec_value(db),
            r matches Some(v) ==> v.known() && v.valid(db.bounds()),
    {
        proof {
            assert(chain_finite(db.type_placeholders@, self.id as int));
            self.lemma_value_known(db);
        }
        self.value_within(db, Ghost(chain_fuel(db.type_placeholders@, self.id as int)))
    }

    /// The value of the placeholder, for a chain that ends within `fuel`
    /// steps.
    fn value_within(self, db: &Database, Ghost(fuel): Ghost<nat>) -> (r: Option<TypeRef>)
        requires
            db.wf(),
            chain_ends(db.type_placeholders@, self.id as int, fuel),
        ensures
            r == self.spec_value(db),
        decreases fuel,
    {
        // Chains of placeholders are very rare in practise, but they _can_
        // occur and thus must be handled.
        let typ = db.type_placeholders[self.id as usize].value;
        proof {
            let cells = db.type_placeholders@;
            lemma_chain_last(cells, self, fuel, chain_fuel(cells, self.id as int));
            assert(cells[self.id as int].wf(db.bounds()));
            if let TypeRef::Placeholder(next) = typ {
                assert(chain_ends(cells, next.id as int, (fuel - 1) as nat));
                lemma_chain_last(
                    cells,
                    next,
                    (fuel - 1) as nat,
                    chain_fuel(cells, next.id as int),
                );
            }
        }

        match typ {
            TypeRef::Placeholder(id) => id.value_within(db, Ghost((fuel - 1) as nat)),
            TypeRef::Unknown => None,
            _ => {
                let res = match self.ownership {
                    Ownership::Any => typ,
                    Ownership::Owned => typ.as_owned_resolved(),
                    Ownership::Uni => typ.as_uni_resolved(db),
                    Ownership::Ref => typ.as_ref_resolved(db),
                    Ownership::Mut => typ.force_as_mut_resolved(db),
                    Ownership::UniRef => typ.as_uni_ref_resolved(),
                    Ownership::UniMut => typ.force_as_uni_mut_resolved(),
                    Ownership::Pointer => typ.as_pointer_resolved(),
                };

                Some(res)
            },
        }
    }

    /// The type parameter of which the requirements must be met by a type
    /// before it is compatible with the placeholder.
    pub fn required(self, db: &Database) -> (r: Option<TypeParameterId>)
        requires
            db.has_placeholder(self),
        ensures
            r == db.placeholder(self).required,
    {
        db.type_placeholders[self.id as usize].required
    }

    /// What the table of placeholders holds after `self` was assigned
    /// `value`: nothing changes if `value` is a reference to the placeholder
    /// itself, whatever its ownership.
    pub open spec fn assigned(self, db: &Database, value: TypeRef) -> Seq<TypePlaceholder> {
        if value matches TypeRef::Placeholder(id) && id.id == self.id {
            db.type_placeholders@
        } else {
            db.type_placeholders@.update(
                self.id as int,
                TypePlaceholder { value, ..db.placeholder(self) },
            )
        }
    }

    /// Assigning `value` to `self` leaves every chain of placeholders finite:
    /// `value` is no placeholder, or it is a reference to `self` itself, or it
    /// is a placeholder of the database from which no chain leads to `self`.
    pub open spec fn assignable(self, db: &Database, value: TypeRef) -> bool {
        value matches TypeRef::Placeholder(id) ==> id.id == self.id || (db.has_placeholder(id)
            && !leads_to(db.type_placeholders@, id.id as int, self.id as int))
    }

    /// Assigns the placeholder the given value. Assigning a placeholder to
    /// itself is ignored: reading its value would never come to an end.
    ///
    /// This is the operation that the type checker of this crate uses while it
    /// infers types. Code outside of it goes through `assign`.
    pub fn assign_internal(self, db: &mut Database, value: TypeRef)
        requires
            old(db).has_placeholder(self),
        ensures
            final(db).type_placeholders@ == self.assigned(old(db), value),
            final(db).same_but(old(db), set![Table::TypePlaceholders]),
            value matches TypeRef::Placeholder(id) && id.id == self.id ==> *final(db) == *old(db),
            old(db).wf() && value.valid(old(db).bounds()) && self.assignable(old(db), value)
                ==> final(db).wf(),
    {
        // Assigning placeholders to themselves isn't useful and results in
        // reading the value getting stuck.
        if let TypeRef::Placeholder(id) = value {
            if id.id == self.id {
                assert(db.type_placeholders@ =~= self.assigned(old(db), value));
                return ;
            }
        }
        let ghost before = *db;
        db.type_placeholders[self.id as usize].value = value;
        proof {
            assert(db.type_placeholders@ =~= self.assigned(&before, value));
            if before.wf() && value.valid(before.bounds()) && self.assignable(&before, value) {
                lemma_chains_end_after_assign(
                    before.type_placeholders@,
                    db.type_placeholders@,
                    self.id as int,
                );
            }
        }
    }

    /// Assigns the placeholder the given value. Assigning a placeholder to
    /// itself is ignored.
    pub fn assign(self, db: &mut Database, value: TypeRef)
        requires
            old(db).has_placeholder(self),
        ensures
            final(db).type_placeholders@ == self.assigned(old(db), value),
            final(db).same_but(old(db), set![Table::TypePlaceholders]),
            value matches TypeRef::Placeholder(id) && id.id == self.id ==> *final(db) == *old(db),
            old(db).wf() && value.valid(old(db).bounds()) && self.assignable(old(db), value)
                ==> final(db).wf(),
    {
        self.assign_internal(db, value);
    }
}

} // verus!
