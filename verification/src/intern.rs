//! Interning of type arguments.
//!
//! Different occurrences of one generic instance, such as two `Array[Int]`,
//! hold different indexes for their type arguments. To specialize over a
//! specific type, such occurrences must be given one common index, or the same
//! type would be specialized many times.
use vstd::prelude::*;
use std::collections::HashMap;
use crate::collections::seq_map::SeqMap;
use crate::database::{arguments_valid, Database};
use crate::type_ref::{ClassId, ClassInstance, TraitInstance, TypeId, TypeRef};

verus! {

/// The types that the given types refer to, in order. A type that refers to
/// nothing is left out.
pub open spec fn referred_types(db: &Database, types: Seq<TypeRef>) -> Seq<TypeId>
    decreases types.len(),
{
    if types.len() == 0 {
        Seq::empty()
    } else {
        let rest = referred_types(db, types.drop_last());
        match types.last().spec_type_id(db) {
            Ok(id) => rest.push(id),
            Err(_) => rest,
        }
    }
}

/// The types that the type arguments at `index` refer to, in ascending order
/// of the type parameters. An index outside of the table gives nothing.
pub open spec fn argument_types(db: &Database, index: u32) -> Seq<TypeId> {
    if index < db.type_arguments@.len() {
        referred_types(db, db.type_arguments@[index as int].mapping.values@)
    } else {
        Seq::empty()
    }
}

/// What a type contributes to a key: for an instance of a generic class or
/// trait the instance without its type arguments, for any other type the type
/// itself.
pub open spec fn stripped(db: &Database, id: TypeId) -> TypeId {
    match id {
        TypeId::ClassInstance(i) if db.class(i.instance_of).generic() => TypeId::ClassInstance(
            ClassInstance { instance_of: i.instance_of, type_arguments: 0 },
        ),
        TypeId::TraitInstance(i) if db.trait_(i.instance_of).generic() => TypeId::TraitInstance(
            TraitInstance { instance_of: i.instance_of, type_arguments: 0 },
        ),
        _ => id,
    }
}

/// The types that are to be walked after a type: for an instance of a generic
/// class or trait the types that its type arguments refer to, for any other
/// type nothing.
pub open spec fn nested(db: &Database, id: TypeId) -> Seq<TypeId> {
    match id {
        TypeId::ClassInstance(i) if db.class(i.instance_of).generic() => argument_types(
            db,
            i.type_arguments,
        ),
        TypeId::TraitInstance(i) if db.trait_(i.instance_of).generic() => argument_types(
            db,
            i.type_arguments,
        ),
        _ => Seq::empty(),
    }
}

/// The key that a walk arrives at which has `stack` left to walk and has
/// gathered `key` so far, if the walk ends within `fuel` steps. Each step takes
/// the last type from the stack, adds what it contributes to the key, and puts
/// the types nested in it on the stack.
pub open spec fn walked(db: &Database, stack: Seq<TypeId>, key: Seq<TypeId>, fuel: nat) -> Option<
    Seq<TypeId>,
>
    decreases fuel,
{
    if stack.len() == 0 {
        Some(key)
    } else if fuel == 0 {
        None
    } else {
        walked(
            db,
            stack.drop_last() + nested(db, stack.last()),
            key.push(stripped(db, stack.last())),
            (fuel - 1) as nat,
        )
    }
}

/// The walk through `instance` and the types nested in it ends: no type is
/// nested in itself.
pub open spec fn walk_ends(db: &Database, instance: ClassInstance) -> bool {
    exists|fuel: nat| walked(db, seq![TypeId::ClassInstance(instance)], Seq::empty(), fuel) is Some
}

/// The key of `instance`: the instance and all types nested in it, each
/// without its type arguments, in the order of a walk that goes into the last
/// type argument first. Two instances with the same key are the same type.
pub open spec fn key_of(db: &Database, instance: ClassInstance) -> Seq<TypeId> {
    walked(
        db,
        seq![TypeId::ClassInstance(instance)],
        Seq::empty(),
        choose|fuel: nat|
            walked(db, seq![TypeId::ClassInstance(instance)], Seq::empty(), fuel) is Some,
    ).unwrap()
}

/// The number under which an instance is kept in the cache.
pub open spec fn cache_key(instance: ClassInstance) -> u64 {
    (instance.instance_of.0 as u64 * 0x1_0000_0000 + instance.type_arguments as u64) as u64
}

/// What has been interned: the index that each instance seen was given, and
/// the index that stands for each key.
pub struct Interned {
    pub cache: Map<u64, u32>,
    pub mapping: Map<Seq<TypeId>, u32>,
}

impl Interned {
    /// The index that interning `instance` gives: the one that the cache holds
    /// for it; or else the one that stands for its key; or else, for a key that
    /// is new, the index that the instance holds itself.
    pub open spec fn index_of(self, db: &Database, instance: ClassInstance) -> u32 {
        if self.cache.contains_key(cache_key(instance)) {
            self.cache[cache_key(instance)]
        } else if self.mapping.contains_key(key_of(db, instance)) {
            self.mapping[key_of(db, instance)]
        } else {
            instance.type_arguments
        }
    }

    /// What has been interned after `instance` was: nothing new if the cache
    /// held it; else the instance is in the cache, and its index stands for its
    /// key if nothing stood for that key.
    pub open spec fn after(self, db: &Database, instance: ClassInstance) -> Interned {
        if self.cache.contains_key(cache_key(instance)) {
            self
        } else {
            Interned {
                cache: self.cache.insert(cache_key(instance), self.index_of(db, instance)),
                mapping: if self.mapping.contains_key(key_of(db, instance)) {
                    self.mapping
                } else {
                    self.mapping.insert(key_of(db, instance), instance.type_arguments)
                },
            }
        }
    }
}

/// A type that maps/interns type arguments, such that structurally different
/// but semantically equivalent type arguments all map to the same type
/// arguments ID.
pub struct InternedTypeArguments {
    /// A cache that maps the raw class instances to their interned type
    /// arguments ID, so that the key of one instance is made once only.
    pub cache: HashMap<u64, u32>,
    /// A mapping of the keys of class instances to the common type arguments
    /// ID.
    pub mapping: SeqMap<TypeId, u32>,
}

impl View for InternedTypeArguments {
    type V = Interned;

    open spec fn view(&self) -> Interned {
        Interned { cache: self.cache@, mapping: self.mapping@ }
    }
}

/// The number under which `instance` is kept in the cache.
fn cache_key_of(instance: ClassInstance) -> (r: u64)
    ensures
        r == cache_key(instance),
{
    instance.instance_of.0 as u64 * 0x1_0000_0000 + instance.type_arguments as u64
}

/// Two instances are kept under two numbers.
pub proof fn lemma_cache_key(a: ClassInstance, b: ClassInstance)
    ensures
        cache_key(a) == cache_key(b) <==> a == b,
{
}

impl InternedTypeArguments {
    pub open spec fn wf(&self) -> bool {
        self.mapping.wf()
    }

    pub fn new() -> (r: InternedTypeArguments)
        ensures
            r.wf(),
            r@.cache == Map::<u64, u32>::empty(),
            r@.mapping == Map::<Seq<TypeId>, u32>::empty(),
    {
        InternedTypeArguments { cache: HashMap::new(), mapping: SeqMap::new() }
    }

    /// Puts the types that `values` refer to on `stack`, in order.
    fn push_referred(db: &Database, values: &Vec<TypeRef>, stack: &mut Vec<TypeId>)
        requires
            db.wf(),
            forall|i: int| 0 <= i < values@.len() ==> (#[trigger] values@[i]).valid(db.bounds()),
            forall|i: int| 0 <= i < old(stack)@.len() ==>
                (#[trigger] old(stack)@[i]).valid(db.bounds()),
        ensures
            final(stack)@ == old(stack)@ + referred_types(db, values@),
            forall|i: int|
                0 <= i < final(stack)@.len() ==> (#[trigger] final(stack)@[i]).valid(db.bounds()),
    {
        let ghost before = stack@;
        let mut i: usize = 0;
        proof {
            assert(values@.subrange(0, 0) =~= Seq::<TypeRef>::empty());
            assert(stack@ =~= before + referred_types(db, values@.subrange(0, 0)));
        }
        while i < values.len()
            invariant
                db.wf(),
                i <= values@.len(),
                forall|i: int| 0 <= i < values@.len() ==>
                    (#[trigger] values@[i]).valid(db.bounds()),
                stack@ == before + referred_types(db, values@.subrange(0, i as int)),
                forall|i: int| 0 <= i < stack@.len() ==> (#[trigger] stack@[i]).valid(db.bounds()),
            decreases values@.len() - i,
        {
            let ghost seen = referred_types(db, values@.subrange(0, i as int));
            proof {
                assert(values@.subrange(0, i + 1).drop_last() =~= values@.subrange(0, i as int));
            }
            match values[i].type_id(db) {
                Ok(id) => {
                    stack.push(id);
                    assert(stack@ =~= before + seen.push(id));
                },
                Err(_) => {},
            }
            i += 1;
        }
        assert(values@.subrange(0, values@.len() as int) =~= values@);
    }

    /// The index that stands for `instance` and for every instance with the
    /// same key. The walk through the types nested in the instance must end.
    pub fn intern(&mut self, db: &Database, instance: ClassInstance) -> (r: u32)
        requires
            db.wf(),
            db.has_class(instance.instance_of),
            old(self).wf(),
            walk_ends(db, instance),
        ensures
            final(self).wf(),
            r == old(self)@.index_of(db, instance),
            final(self)@ == old(self)@.after(db, instance),
    {
        // The cache is used such that if we use the exact same type N times, we
        // only perform the more expensive type walking once.
        let cached = cache_key_of(instance);
        if let Some(id) = self.cache.get(&cached) {
            return *id;
        }
        let mut key: Vec<TypeId> = Vec::new();
        let mut stack: Vec<TypeId> = Vec::new();
        stack.push(TypeId::ClassInstance(instance));
        let ghost mut fuel = choose|fuel: nat|
            walked(db, seq![TypeId::ClassInstance(instance)], Seq::empty(), fuel) is Some;
        proof {
            assert(stack@ =~= seq![TypeId::ClassInstance(instance)]);
        }

        while stack.len() > 0
            invariant
                db.wf(),
                forall|i: int| 0 <= i < stack@.len() ==> (#[trigger] stack@[i]).valid(db.bounds()),
                walked(db, stack@, key@, fuel) == Some(key_of(db, instance)),
            decreases fuel,
        {
            let ghost before = stack@;
            let tid = match stack.pop() {
                Some(tid) => tid,
                None => unreached(),
            };
            proof {
                assert(stack@ =~= before.drop_last());
                assert(tid == before.last());
                assert(tid.valid(db.bounds()));
            }
            let generic = match tid {
                TypeId::ClassInstance(i) => i.instance_of().is_generic(db),
                TypeId::TraitInstance(i) => i.instance_of().is_generic(db),
                _ => false,
            };
            let (val, index) = match tid {
                TypeId::ClassInstance(i) => if generic {
                    (TypeId::ClassInstance(ClassInstance::new(i.instance_of())),
                        Some(i.type_arguments))
                } else {
                    (tid, None)
                },
                TypeId::TraitInstance(i) => if generic {
                    (TypeId::TraitInstance(TraitInstance::new(i.instance_of())),
                        Some(i.type_arguments))
                } else {
                    (tid, None)
                },
                _ => (tid, None),
            };

            match index {
                Some(index) => {
                    if (index as usize) < db.type_arguments.len() {
                        proof {
                            let args = db.type_arguments@[index as int];
                            assert(args.wf());
                            assert(arguments_valid(&args, db.bounds()));
                            assert forall|i: int| 0 <= i < args.mapping.values@.len() implies (
                            #[trigger] args.mapping.values@[i]).valid(db.bounds()) by {
                                crate::collections::id_map::lemma_place_of(args.mapping.keys@, i);
                                assert(args@.contains_key(args.mapping.keys@[i]));
                            }
                        }
                        InternedTypeArguments::push_referred(
                            db,
                            &db.type_arguments[index as usize].mapping.values,
                            &mut stack,
                        );
                    }
                },
                None => {},
            }
            proof {
                assert(stack@ =~= before.drop_last() + nested(db, tid));
                fuel = (fuel - 1) as nat;
            }
            key.push(val);
        }
        let id = match self.mapping.get(key.as_slice()) {
            Some(id) => id,
            None => {
                self.mapping.insert(key, instance.type_arguments);
                instance.type_arguments
            },
        };

        self.cache.insert(cached, id);
        proof {
            assert(self@.cache =~= old(self)@.after(db, instance).cache);
            assert(self@.mapping =~= old(self)@.after(db, instance).mapping);
        }
        id
    }
}

} // verus!
