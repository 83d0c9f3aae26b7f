//! Blocks of code that take arguments and return a value: methods and
//! closures.
use vstd::prelude::*;
use crate::collections::name_index::{holds_name, NameIndex};
use crate::database::{Argument, Arguments, Database, Variable};
use crate::location::Location;
use crate::type_ref::{Bounds, TypeRef, VariableId};

verus! {

impl Argument {
    /// A copy of the argument.
    pub fn duplicate(&self) -> (r: Argument)
        ensures
            r == *self,
    {
        Argument {
            index: self.index,
            name: self.name.clone(),
            value_type: self.value_type,
            variable: self.variable,
        }
    }
}

impl Arguments {
    pub fn new() -> (r: Self)
        ensures
            r.linked(),
            r.items@.len() == 0,
            forall|b: Bounds| r.wf(b),
    {
        Arguments { names: NameIndex::new(), items: Vec::new() }
    }

    /// Adds an argument after the arguments that are there. No argument of
    /// that name may be there yet: the arguments are numbered as they are
    /// added.
    pub fn new_argument(&mut self, name: String, value_type: TypeRef, variable: VariableId)
        requires
            old(self).linked(),
            !holds_name(old(self).names.entries(), name@),
        ensures
            final(self).linked(),
            final(self).items@ == old(self).items@.push(
                Argument { index: old(self).items@.len() as usize, name, value_type, variable },
            ),
            forall|b: Bounds| old(self).wf(b) && value_type.valid(b) ==> final(self).wf(b),
    {
        let index = self.names.len();
        let arg = Argument { index, name: name.clone(), value_type, variable };

        self.names.insert(name, index);
        self.items.push(arg);
    }

    /// The argument named `name`, if there is one.
    pub fn get(&self, name: &str) -> (r: Option<&Argument>)
        requires
            self.linked(),
        ensures
            match r {
                Some(arg) => arg.index < self.items@.len() && self.items@[arg.index as int] == *arg
                    && arg.name@ == name@,
                None => !holds_name(self.names.entries(), name@),
            },
    {
        match self.names.get(name) {
            Some(at) => {
                proof {
                    let i = crate::collections::name_index::place_of_name(
                        self.names.entries(),
                        name@,
                    );
                    assert(self.names.entries()[i] == (self.items@[i].name@, i as usize));
                }
                Some(&self.items[at])
            },
            None => None,
        }
    }

    /// The arguments in the order of their definition.
    pub fn iter(&self) -> (r: &Vec<Argument>)
        ensures
            *r == self.items,
    {
        &self.items
    }

    pub fn len(&self) -> (r: usize)
        ensures
            r == self.items@.len(),
    {
        self.items.len()
    }

    /// The type of the argument at place `index`, if there are that many
    /// arguments.
    pub fn type_at(&self, index: usize) -> (r: Option<TypeRef>)
        ensures
            r == self.spec_type_at(index as int),
    {
        if index < self.items.len() {
            Some(self.items[index].value_type)
        } else {
            None
        }
    }

    /// The type of the argument at place `index`, if there are that many
    /// arguments.
    pub open spec fn spec_type_at(&self, index: int) -> Option<TypeRef> {
        if 0 <= index < self.items@.len() {
            Some(self.items@[index].value_type)
        } else {
            None
        }
    }

    /// Copies of the arguments, in the order of their definition.
    pub fn to_vec(&self) -> (r: Vec<Argument>)
        ensures
            r@ == self.items@,
    {
        let mut out: Vec<Argument> = Vec::new();
        let mut i: usize = 0;
        while i < self.items.len()
            invariant
                i <= self.items@.len(),
                out@ == self.items@.subrange(0, i as int),
            decreases self.items@.len() - i,
        {
            out.push(self.items[i].duplicate());
            assert(out@ =~= self.items@.subrange(0, i + 1));
            i += 1;
        }
        assert(out@ =~= self.items@);
        out
    }

    /// A copy of the collection.
    pub fn duplicate(&self) -> (r: Self)
        ensures
            r.names.entries() == self.names.entries(),
            r.items@ == self.items@,
    {
        Arguments { names: self.names.duplicate(), items: self.to_vec() }
    }
}

/// A block of code, such as a closure or method.
pub trait Block {
    /// The block is in the database.
    spec fn exists_in(&self, db: &Database) -> bool;

    /// The arguments of the block.
    spec fn arguments_in(&self, db: &Database) -> Arguments;

    /// The return type of the block.
    spec fn return_type_in(&self, db: &Database) -> TypeRef;

    /// Adds a variable for an argument named `name`, and the argument itself
    /// after the arguments that the block has.
    fn new_argument(
        &self,
        db: &mut Database,
        name: String,
        variable_type: TypeRef,
        argument_type: TypeRef,
        location: Location,
    ) -> (id: VariableId)
        requires
            self.exists_in(old(db)),
            self.arguments_in(old(db)).linked(),
            !holds_name(self.arguments_in(old(db)).names.entries(), name@),
            old(db).variables@.len() < u32::MAX,
        ensures
            id.0 == old(db).variables@.len(),
            final(db).variables@ == old(db).variables@.push(
                Variable { name, value_type: variable_type, mutable: false, location },
            ),
            self.exists_in(final(db)),
            self.arguments_in(final(db)).linked(),
            self.arguments_in(final(db)).items@ == self.arguments_in(old(db)).items@.push(
                Argument {
                    index: self.arguments_in(old(db)).items@.len() as usize,
                    name,
                    value_type: argument_type,
                    variable: id,
                },
            ),
            self.return_type_in(final(db)) == self.return_type_in(old(db)),
            old(db).wf() && variable_type.valid(old(db).bounds()) && argument_type.valid(
                old(db).bounds(),
            ) ==> final(db).wf(),
    ;

    fn return_type(&self, db: &Database) -> (r: TypeRef)
        requires
            self.exists_in(db),
        ensures
            r == self.return_type_in(db),
    ;

    fn set_return_type(&self, db: &mut Database, typ: TypeRef)
        requires
            self.exists_in(old(db)),
        ensures
            self.exists_in(final(db)),
            self.return_type_in(final(db)) == typ,
            self.arguments_in(final(db)) == self.arguments_in(old(db)),
            old(db).wf() && typ.valid(old(db).bounds()) ==> final(db).wf(),
    ;
}

} // verus!
