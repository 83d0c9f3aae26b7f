//! Copies of lists, and lists of plain numbers turned into lists of IDs.
use vstd::prelude::*;
use crate::collections::name_index::NameIndex;
use crate::type_ref::{ConstructorId, FieldId, MethodId, TypeParameterId};

verus! {

/// A copy of a list of values that can be copied.
pub fn copy_vec<T: Copy>(list: &Vec<T>) -> (r: Vec<T>)
    ensures
        r@ == list@,
{
    let mut out: Vec<T> = Vec::new();
    let mut i: usize = 0;
    while i < list.len()
        invariant
            i <= list@.len(),
            out@ == list@.subrange(0, i as int),
        decreases list@.len() - i,
    {
        out.push(list[i]);
        assert(out@ =~= list@.subrange(0, i + 1));
        i += 1;
    }
    assert(out@ =~= list@);
    out
}

/// The IDs of `index` as type parameters, in order.
pub open spec fn parameters_of(index: &NameIndex) -> Seq<TypeParameterId> {
    Seq::new(index.entries().len(), |i: int| TypeParameterId(index.entries()[i].1))
}

/// The IDs of `index` from place `from` on as fields, in order.
pub open spec fn fields_of(index: &NameIndex, from: int) -> Seq<FieldId> {
    Seq::new((index.entries().len() - from) as nat, |i: int| FieldId(index.entries()[from + i].1))
}

/// The IDs of `index` as constructors, in order.
pub open spec fn constructors_of(index: &NameIndex) -> Seq<ConstructorId> {
    Seq::new(index.entries().len(), |i: int| ConstructorId(index.entries()[i].1))
}

/// The IDs of `index` as methods, in order.
pub open spec fn methods_of(index: &NameIndex) -> Seq<MethodId> {
    Seq::new(index.entries().len(), |i: int| MethodId(index.entries()[i].1 as u32))
}

pub fn parameter_ids(index: &NameIndex) -> (r: Vec<TypeParameterId>)
    ensures
        r@ == parameters_of(index),
{
    let mut out: Vec<TypeParameterId> = Vec::new();
    let len = index.len();
    let mut i: usize = 0;
    while i < len
        invariant
            len == index.entries().len(),
            i <= len,
            out@ == parameters_of(index).subrange(0, i as int),
        decreases len - i,
    {
        if let Some(id) = index.id_at(i) {
            out.push(TypeParameterId(id));
        }
        assert(out@ =~= parameters_of(index).subrange(0, i + 1));
        i += 1;
    }
    assert(out@ =~= parameters_of(index));
    out
}

pub fn field_ids(index: &NameIndex, from: usize) -> (r: Vec<FieldId>)
    requires
        from <= index.entries().len(),
    ensures
        r@ == fields_of(index, from as int),
{
    let mut out: Vec<FieldId> = Vec::new();
    let len = index.len();
    let mut i: usize = from;
    while i < len
        invariant
            len == index.entries().len(),
            from <= i <= len,
            out@ == fields_of(index, from as int).subrange(0, i - from),
        decreases len - i,
    {
        if let Some(id) = index.id_at(i) {
            out.push(FieldId(id));
        }
        assert(out@ =~= fields_of(index, from as int).subrange(0, i + 1 - from));
        i += 1;
    }
    assert(out@ =~= fields_of(index, from as int));
    out
}

pub fn constructor_ids(index: &NameIndex) -> (r: Vec<ConstructorId>)
    ensures
        r@ == constructors_of(index),
{
    let mut out: Vec<ConstructorId> = Vec::new();
    let len = index.len();
    let mut i: usize = 0;
    while i < len
        invariant
            len == index.entries().len(),
            i <= len,
            out@ == constructors_of(index).subrange(0, i as int),
        decreases len - i,
    {
        if let Some(id) = index.id_at(i) {
            out.push(ConstructorId(id));
        }
        assert(out@ =~= constructors_of(index).subrange(0, i + 1));
        i += 1;
    }
    assert(out@ =~= constructors_of(index));
    out
}

pub fn method_ids(index: &NameIndex) -> (r: Vec<MethodId>)
    requires
        forall|i: int| 0 <= i < index.entries().len() ==>
            (#[trigger] index.entries()[i]).1 <= u32::MAX,
    ensures
        r@ == methods_of(index),
{
    let mut out: Vec<MethodId> = Vec::new();
    let len = index.len();
    let mut i: usize = 0;
    while i < len
        invariant
            len == index.entries().len(),
            i <= len,
            out@ == methods_of(index).subrange(0, i as int),
            forall|i: int|
                0 <= i < index.entries().len() ==> (#[trigger] index.entries()[i]).1 <= u32::MAX,
        decreases len - i,
    {
        if let Some(id) = index.id_at(i) {
            assert(index.entries()[i as int].1 <= u32::MAX);
            out.push(MethodId(id as u32));
        }
        assert(out@ =~= methods_of(index).subrange(0, i + 1));
        i += 1;
    }
    assert(out@ =~= methods_of(index));
    out
}

} // verus!
