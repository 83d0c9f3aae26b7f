//! Laws that relate the operations of the library to each other.
use vstd::prelude::*;
use crate::arguments::TypeArguments;
use crate::collections::id_map::lemma_same_map_same_entries;
use crate::database::Database;
use crate::intern::{cache_key, key_of, lemma_cache_key, Interned};
use crate::module_name::{
    has_prefix, head, head_len, is_head_len, is_root, lemma_head_len, same_root_namespace,
    separator, test_prefix,
};
use crate::placeholder::{chain_ends, chain_finite, chain_fuel, lemma_chain_last};
use crate::type_ref::{ClassInstance, Ownership, Shape, TypeId, TypePlaceholderId, TypeRef};
use crate::{BOOL_ID, FLOAT_ID, INT_ID, NIL_ID, STRING_ID};

verus! {

/// A placeholder that was assigned a placeholder has the value of that
/// placeholder, read under the ownership of the reference that was assigned.
/// So all placeholders of a chain have the value that the chain ends with.
pub proof fn law_value_follows_chain(db: &Database, p: TypePlaceholderId, q: TypePlaceholderId)
    requires
        db.wf(),
        db.has_placeholder(p),
        db.placeholder(p).value == TypeRef::Placeholder(q),
    ensures
        db.has_placeholder(q),
        p.spec_value(db) == q.spec_value(db),
{
    let cells = db.type_placeholders@;
    assert(chain_finite(cells, p.id as int));
    let fuel = chain_fuel(cells, p.id as int);
    assert(chain_ends(cells, q.id as int, (fuel - 1) as nat));
    lemma_chain_last(cells, q, (fuel - 1) as nat, chain_fuel(cells, q.id as int));
}

/// A placeholder that holds a type which is known and no placeholder has that
/// type as its value, under the ownership that the reference asks for. A
/// reference that asks for no ownership reads the type as it is.
pub proof fn law_value_of_assigned(db: &Database, p: TypePlaceholderId)
    requires
        db.wf(),
        db.has_placeholder(p),
        db.placeholder(p).value.known(),
    ensures
        p.spec_value(db) == Some(db.placeholder(p).value.with_ownership(p.ownership, db)),
        p.ownership is Any ==> p.spec_value(db) == Some(db.placeholder(p).value),
{
    let cells = db.type_placeholders@;
    assert(chain_ends(cells, p.id as int, 0));
    lemma_chain_last(cells, p, 0, chain_fuel(cells, p.id as int));
}

/// A placeholder that holds no type yet has no value.
pub proof fn law_value_of_unassigned(db: &Database, p: TypePlaceholderId)
    requires
        db.wf(),
        db.has_placeholder(p),
        db.placeholder(p).value is Unknown,
    ensures
        p.spec_value(db) is None,
{
    let cells = db.type_placeholders@;
    assert(chain_ends(cells, p.id as int, 0));
    lemma_chain_last(cells, p, 0, chain_fuel(cells, p.id as int));
}

/// Assigning a placeholder to itself changes nothing, whatever ownership the
/// reference that is assigned asks for. In particular the placeholder has the
/// value, or the lack of one, that it had.
pub proof fn law_self_assignment(db: &Database, p: TypePlaceholderId, ownership: Ownership)
    requires
        db.has_placeholder(p),
    ensures
        p.assigned(db, TypeRef::Placeholder(TypePlaceholderId { id: p.id, ownership }))
            == db.type_placeholders@,
{
}

impl Interned {
    /// What the cache holds for an instance is what stands for the key of the
    /// instance.
    pub open spec fn consistent(self, db: &Database) -> bool {
        forall|instance: ClassInstance| #[trigger]
            self.cache.contains_key(cache_key(instance)) ==> self.mapping.contains_key(
                key_of(db, instance),
            ) && self.mapping[key_of(db, instance)] == self.cache[cache_key(instance)]
    }
}

/// Interning keeps the cache in line with the keys, as long as the database
/// stays as it is.
pub proof fn law_interning_stays_consistent(s: Interned, db: &Database, a: ClassInstance)
    requires
        s.consistent(db),
    ensures
        s.after(db, a).consistent(db),
{
    let t = s.after(db, a);
    assert forall|instance: ClassInstance| #[trigger]
        t.cache.contains_key(cache_key(instance)) implies t.mapping.contains_key(
        key_of(db, instance),
    ) && t.mapping[key_of(db, instance)] == t.cache[cache_key(instance)] by {
        lemma_cache_key(instance, a);
        if instance != a {
            assert(s.cache.contains_key(cache_key(instance)));
        }
    }
}

/// Two instances with the same key are given the same index, whichever of
/// them is interned first, and each is given that index again whenever it is
/// interned later.
pub proof fn law_same_key_same_index(s: Interned, db: &Database, a: ClassInstance, b: ClassInstance)
    requires
        s.consistent(db),
        key_of(db, a) == key_of(db, b),
    ensures
        s.after(db, a).index_of(db, b) == s.index_of(db, a),
        s.after(db, a).after(db, b).index_of(db, a) == s.index_of(db, a),
        s.after(db, a).after(db, b).index_of(db, b) == s.index_of(db, a),
{
    lemma_cache_key(a, b);
    let s1 = s.after(db, a);
    law_interning_stays_consistent(s, db, a);
    assert(s1.cache.contains_key(cache_key(a)));
    if s.cache.contains_key(cache_key(b)) {
        assert(s1.cache.contains_key(cache_key(b)));
    }
    let s2 = s1.after(db, b);
    law_interning_stays_consistent(s1, db, b);
    assert(s2.cache.contains_key(cache_key(a)));
    assert(s2.cache.contains_key(cache_key(b)));
}

/// Taking a borrow and then the owned value gives what taking the owned value
/// gives at once. The one exception is an owned instance of a C structure,
/// the borrow of which is a pointer, and a pointer stays a pointer.
pub proof fn law_owned_after_ref(db: &Database, x: TypeRef)
    requires
        db.wf(),
        x.valid(db.bounds()),
        !(x.resolved(db) matches TypeRef::Owned(id) && id.extern_instance(db)),
    ensures
        x.spec_as_ref(db).spec_as_owned(db) == x.spec_as_owned(db),
{
    x.lemma_resolved(db);
    if let TypeRef::Placeholder(id) = x {
        id.lemma_value_known(db);
        if id.spec_value(db) is None {
            let p = TypePlaceholderId { id: id.id, ownership: Ownership::Ref };
            lemma_last_ignores_ownership(db, id, p);
        }
    }
}

/// Where a chain of placeholders ends does not depend on the ownership that
/// the first reference asks for, unless the chain ends with the first
/// placeholder itself.
proof fn lemma_last_ignores_ownership(db: &Database, a: TypePlaceholderId, b: TypePlaceholderId)
    requires
        db.wf(),
        db.has_placeholder(a),
        a.id == b.id,
    ensures
        a.spec_value(db) is None <==> b.spec_value(db) is None,
{
    let cells = db.type_placeholders@;
    assert(chain_finite(cells, a.id as int));
    let fuel = chain_fuel(cells, a.id as int);
    lemma_chain_last(cells, a, fuel, fuel);
    lemma_chain_last(cells, b, fuel, fuel);
    match cells[a.id as int].value {
        TypeRef::Placeholder(next) => {},
        typ => {
            if typ.known() {
                typ.lemma_with_ownership(a.ownership, db);
                typ.lemma_with_ownership(b.ownership, db);
            }
        },
    }
}

/// An immutable borrow of an owned instance of a C structure is a pointer to
/// the instance: values of C have no header to count borrows in.
pub proof fn law_ref_of_extern_is_pointer(db: &Database, instance: ClassInstance)
    requires
        db.has_class(instance.instance_of),
        db.class(instance.instance_of).kind is Extern,
    ensures
        TypeRef::Owned(TypeId::ClassInstance(instance)).spec_as_ref(db) == TypeRef::Pointer(
            TypeId::ClassInstance(instance),
        ),
        TypeRef::Owned(TypeId::ClassInstance(instance)).spec_as_mut(db) == TypeRef::Pointer(
            TypeId::ClassInstance(instance),
        ),
{
}

/// Two modules with the same first segment are in the same root namespace:
/// the private symbols of each can be seen from the other.
pub proof fn law_same_head_same_namespace(ours: Seq<char>, theirs: Seq<char>)
    requires
        head(ours) == head(theirs),
    ensures
        same_root_namespace(ours, theirs),
        same_root_namespace(theirs, ours),
{
}

/// The private symbols of a module in the root namespace `x` can be seen from
/// the root module `test_x`.
pub proof fn law_tests_see_namespace(ours: Seq<char>)
    ensures
        same_root_namespace(ours, test_prefix() + head(ours)),
{
    let theirs = test_prefix() + head(ours);
    assert(is_head_len(ours, head_len(ours))) by {
        lemma_some_head_len(ours, 0);
    }
    assert forall|i: int| 0 <= i < theirs.len() implies theirs[i] != separator() by {
        if i >= 5 {
            assert(theirs[i] == head(ours)[i - 5]);
            assert(head(ours)[i - 5] == ours[i - 5]);
        }
    }
    lemma_head_len(theirs, theirs.len() as int);
    assert(theirs.subrange(0, 5) =~= test_prefix());
    assert(theirs.subrange(5, theirs.len() as int) =~= head(ours));
}

/// Every name has a first segment: from place `from`, before which there is no
/// separator, a separator or the end of the name is found.
proof fn lemma_some_head_len(name: Seq<char>, from: int)
    requires
        0 <= from <= name.len(),
        forall|i: int| 0 <= i < from ==> name[i] != separator(),
    ensures
        exists|n: int| is_head_len(name, n),
    decreases name.len() - from,
{
    if from == name.len() || name[from] == separator() {
        assert(is_head_len(name, from));
    } else {
        lemma_some_head_len(name, from + 1);
    }
}

/// The private symbols of the root module `test_x` can't be seen from the
/// root module `x`: the allowance for tests goes one way only.
pub proof fn law_namespace_does_not_see_tests(name: Seq<char>)
    requires
        is_root(name),
    ensures
        !same_root_namespace(test_prefix() + name, name),
{
    let ours = test_prefix() + name;
    assert(is_head_len(name, head_len(name))) by {
        lemma_some_head_len(name, 0);
    }
    assert forall|i: int| 0 <= i < ours.len() implies ours[i] != separator() by {
        if i >= 5 {
            assert(ours[i] == name[i - 5]);
        }
    }
    lemma_head_len(ours, ours.len() as int);
    assert(head(ours) =~= ours);
    assert(head(name) =~= name);
    assert(head(ours).len() != head(name).len());
    if has_prefix(name, test_prefix()) {
        assert(name.subrange(5, name.len() as int).len() != head(ours).len());
    }
}

/// Type arguments that assign the same types are the same list of pairs,
/// however they were filled: they are equal as values, and walking them gives
/// the same key.
pub proof fn law_equal_arguments_equal_pairs(a: TypeArguments, b: TypeArguments)
    requires
        a.wf(),
        b.wf(),
        a@ == b@,
    ensures
        a.ordered_pairs() == b.ordered_pairs(),
        a.mapping.keys@ == b.mapping.keys@,
        a.mapping.values@ == b.mapping.values@,
{
    lemma_same_map_same_entries(a.mapping.keys@, a.mapping.values@, b.mapping.keys@,
        b.mapping.values@);
}

/// The instances of `Int`, `Float`, `Bool`, `Nil` and `String` have one shape
/// each, whatever the kind of reference that holds them.
pub proof fn law_builtin_shapes(
    db: &Database,
    instance: ClassInstance,
    interned: Interned,
    other: Interned,
    shapes: Map<usize, Shape>,
    other_shapes: Map<usize, Shape>,
    a: TypeRef,
    b: TypeRef,
)
    requires
        instance.instance_of.0 == INT_ID || instance.instance_of.0 == FLOAT_ID
            || instance.instance_of.0 == BOOL_ID || instance.instance_of.0 == NIL_ID
            || instance.instance_of.0 == STRING_ID,
        a.instance() == Some(instance),
        b.instance() == Some(instance),
    ensures
        a.spec_shape(db, interned, shapes) == b.spec_shape(db, other, other_shapes),
        a.spec_shape(db, interned, shapes) == instance.spec_shape(db, interned, Shape::Owned),
{
}

} // verus!
