//! Modules and the symbols they define and import.
use vstd::prelude::*;
use vstd::string::StrSliceExecFns;
use std::path::PathBuf;
use crate::collections::name_map::NameMap;
use crate::database::{path_clone, symbol_valid, Class, Database, Module, ModuleSymbol, Table};
use crate::kinds::{ClassKind, Storage, Symbol, Visibility};
use crate::location::Location;
use crate::module_name::{same_root_namespace, ModuleName};
use crate::type_ref::{Bounds, ClassId, ConstantId, MethodId, ModuleId, TraitId};

verus! {

impl Module {
    /// The module has the given attributes, and no documentation, constants,
    /// symbols or external methods.
    pub open spec fn fresh(&self, name: ModuleName, file: PathBuf, class: ClassId) -> bool {
        &&& self.name == name
        &&& self.method_symbol_name == name
        &&& self.file == file
        &&& self.class == class
        &&& self.documentation@.len() == 0
        &&& self.constants@.len() == 0
        &&& self.symbols@ == Map::<Seq<char>, ModuleSymbol>::empty()
        &&& self.symbols.order().len() == 0
        &&& self.extern_methods@ == Map::<Seq<char>, MethodId>::empty()
        &&& self.extern_methods.order().len() == 0
    }

    /// Adds a module to the database, with the class that holds its static
    /// methods, and returns its ID. The module can be found under its name
    /// from then on; a module that was added under the same name before cannot.
    pub fn allocate(db: &mut Database, name: ModuleName, file: PathBuf) -> (id: ModuleId)
        requires
            old(db).modules@.len() < u32::MAX,
            old(db).classes@.len() < u32::MAX,
            old(db).module_mapping.wf(),
        ensures
            id.0 == old(db).modules@.len(),
            final(db).modules@ == old(db).modules@.push(final(db).module_at(id)),
            final(db).module_at(id).fresh(name, file, ClassId(old(db).classes@.len() as u32)),
            final(db).classes@ == old(db).classes@.push(
                final(db).class(ClassId(old(db).classes@.len() as u32)),
            ),
            final(db).class(ClassId(old(db).classes@.len() as u32)).fresh(
                final(db).class(ClassId(old(db).classes@.len() as u32)).name,
                ClassKind::Module,
                Visibility::Private,
                id,
                Location::spec_default(),
                Storage::Heap,
            ),
            final(db).class(ClassId(old(db).classes@.len() as u32)).name@ == name@,
            final(db).module_mapping.wf(),
            final(db).module_mapping@ == old(db).module_mapping@.insert(name@, id),
            final(db).same_but(old(db), set![Table::Modules, Table::Classes, Table::ModuleMapping]),
            old(db).wf() ==> final(db).wf(),
    {
        let ghost before = *db;
        let id = ModuleId(db.modules.len() as u32);
        let class_id = Class::allocate(
            db,
            name.to_string(),
            ClassKind::Module,
            Visibility::Private,
            id,
            Location::default(),
        );
        let ghost mid = *db;

        db.module_mapping.insert(name.to_string(), id);
        db.modules.push(
            Module {
                name: name.duplicate(),
                documentation: String::new(),
                method_symbol_name: name,
                class: class_id,
                file,
                constants: Vec::new(),
                symbols: NameMap::new(),
                extern_methods: NameMap::new(),
            },
        );
        proof {
            if before.wf() {
                assert(mid.wf());
                mid.lemma_wf_in_grows(mid.bounds(), db.bounds());
                assert(db.modules@[id.0 as int].wf(db.bounds()));
            }
        }
        id
    }
}

/// The module that `symbol` belongs to, for the symbols that can be imported.
pub open spec fn symbol_home(db: &Database, symbol: Symbol) -> Option<ModuleId> {
    match symbol {
        Symbol::Class(id) => Some(db.class(id).module),
        Symbol::Trait(id) => Some(db.trait_(id).module),
        Symbol::Constant(id) => Some(db.constant(id).module),
        Symbol::Method(id) => Some(db.method(id).module),
        Symbol::Module(id) => Some(id),
        Symbol::TypeParameter(_) => None,
    }
}

/// The classes among the symbols named by `names` that belong to `module` and
/// that the compiler did not generate, in the order of `names`.
pub open spec fn own_classes(
    db: &Database,
    module: ModuleId,
    symbols: Map<Seq<char>, ModuleSymbol>,
    names: Seq<Seq<char>>,
) -> Seq<ClassId>
    decreases names.len(),
{
    if names.len() == 0 {
        Seq::empty()
    } else {
        let rest = own_classes(db, module, symbols, names.drop_last());
        match symbols[names.last()].symbol {
            Symbol::Class(id) if db.class(id).module == module && !(names.last().len() > 0
                && names.last()[0] == '$') => rest.push(id),
            _ => rest,
        }
    }
}

/// The traits among the symbols named by `names` that belong to `module`, in
/// the order of `names`.
pub open spec fn own_traits(
    db: &Database,
    module: ModuleId,
    symbols: Map<Seq<char>, ModuleSymbol>,
    names: Seq<Seq<char>>,
) -> Seq<TraitId>
    decreases names.len(),
{
    if names.len() == 0 {
        Seq::empty()
    } else {
        let rest = own_traits(db, module, symbols, names.drop_last());
        match symbols[names.last()].symbol {
            Symbol::Trait(id) if db.trait_(id).module == module => rest.push(id),
            _ => rest,
        }
    }
}

impl ModuleId {
    pub fn name(self, db: &Database) -> (r: &ModuleName)
        requires
            db.has_module(self),
        ensures
            *r == db.module_at(self).name,
    {
        &db.modules[self.0 as usize].name
    }

    pub fn documentation(self, db: &Database) -> (r: &String)
        requires
            db.has_module(self),
        ensures
            *r == db.module_at(self).documentation,
    {
        &db.modules[self.0 as usize].documentation
    }

    pub fn set_documentation(self, db: &mut Database, value: String)
        requires
            old(db).has_module(self),
        ensures
            final(db).module_changed(
                old(db),
                self,
                Module { documentation: value, ..old(db).module_at(self) },
            ),
            old(db).wf() ==> final(db).wf(),
    {
        db.modules[self.0 as usize].documentation = value;
    }

    /// The constants of the module, in the order of their definition.
    pub fn constants(self, db: &Database) -> (r: &Vec<ConstantId>)
        requires
            db.has_module(self),
        ensures
            *r == db.module_at(self).constants,
    {
        &db.modules[self.0 as usize].constants
    }

    pub fn method_symbol_name(self, db: &Database) -> (r: &ModuleName)
        requires
            db.has_module(self),
        ensures
            *r == db.module_at(self).method_symbol_name,
    {
        &db.modules[self.0 as usize].method_symbol_name
    }

    pub fn set_method_symbol_name(self, db: &mut Database, name: ModuleName)
        requires
            old(db).has_module(self),
        ensures
            final(db).module_changed(
                old(db),
                self,
                Module { method_symbol_name: name, ..old(db).module_at(self) },
            ),
            old(db).wf() ==> final(db).wf(),
    {
        db.modules[self.0 as usize].method_symbol_name = name;
    }

    pub fn file(self, db: &Database) -> (r: PathBuf)
        requires
            db.has_module(self),
        ensures
            r == db.module_at(self).file,
    {
        path_clone(&db.modules[self.0 as usize].file)
    }

    /// Gives the module another source file.
    pub fn set_file(self, db: &mut Database, file: PathBuf)
        requires
            old(db).has_module(self),
        ensures
            final(db).module_changed(old(db), self, Module { file, ..old(db).module_at(self) }),
            old(db).wf() ==> final(db).wf(),
    {
        db.modules[self.0 as usize].file = file;
    }

    /// The symbol named `name`, which is marked as used from now on.
    pub fn use_symbol(self, db: &mut Database, name: &str) -> (r: Option<Symbol>)
        requires
            old(db).has_module(self),
            old(db).module_at(self).symbols.wf(),
        ensures
            r == old(db).symbol_of(self, name@),
            final(db).module_changed(
                old(db),
                self,
                Module { symbols: final(db).module_at(self).symbols, ..old(db).module_at(self) },
            ),
            final(db).module_at(self).symbols.wf(),
            final(db).module_at(self).symbols.order() == old(db).module_at(self).symbols.order(),
            final(db).module_at(self).symbols@ == (match r {
                Some(symbol) => old(db).module_at(self).symbols@.insert(
                    name@,
                    ModuleSymbol { symbol, used: true },
                ),
                None => old(db).module_at(self).symbols@,
            }),
            old(db).wf() ==> final(db).wf(),
    {
        let ghost before = *db;
        match db.modules[self.0 as usize].symbols.get(name) {
            Some(sym) => {
                db.modules[self.0 as usize].symbols.insert(
                    name.to_owned(),
                    ModuleSymbol { symbol: sym.symbol, used: true },
                );
                proof {
                    assert(db.modules@ =~= before.modules@.update(
                        self.0 as int,
                        Module { symbols: db.module_at(self).symbols, ..before.module_at(self) },
                    ));
                    if before.wf() {
                        assert(before.modules@[self.0 as int].wf(before.bounds()));
                        assert(before.module_at(self).symbols@.contains_key(name@));
                        assert(db.modules@[self.0 as int].wf(db.bounds()));
                    }
                }
                Some(sym.symbol)
            },
            None => {
                assert(db.modules@ =~= before.modules@.update(
                    self.0 as int,
                    Module { symbols: db.module_at(self).symbols, ..before.module_at(self) },
                ));
                None
            },
        }
    }

    /// The symbol named `name`.
    pub fn symbol(self, db: &Database, name: &str) -> (r: Option<Symbol>)
        requires
            db.has_module(self),
        ensures
            r == db.symbol_of(self, name@),
            db.wf() && r is Some ==> symbol_valid(r.unwrap(), db.bounds()),
    {
        proof {
            if db.wf() {
                assert(db.modules@[self.0 as int].wf(db.bounds()));
            }
        }
        match db.modules[self.0 as usize].symbols.get(name) {
            Some(v) => Some(v.symbol),
            None => None,
        }
    }

    pub fn symbol_is_used(self, db: &Database, name: &str) -> (r: bool)
        requires
            db.has_module(self),
        ensures
            r == (db.module_at(self).symbols@.contains_key(name@) && db.module_at(
                self,
            ).symbols@[name@].used),
    {
        match db.modules[self.0 as usize].symbols.get(name) {
            Some(v) => v.used,
            None => false,
        }
    }

    /// The names of the module with the symbols they stand for, in the order
    /// in which the names were first added.
    pub fn symbols(self, db: &Database) -> (r: Vec<(String, Symbol)>)
        requires
            db.has_module(self),
            db.module_at(self).symbols.wf(),
        ensures
            r@.len() == db.module_at(self).symbols.order().len(),
            forall|i: int|
                0 <= i < r@.len() ==> (#[trigger] r@[i]).0@ == db.module_at(self).symbols.order()[i]
                    && r@[i].1 == db.module_at(self).symbols@[db.module_at(
                    self,
                ).symbols.order()[i]].symbol,
    {
        let table = &db.modules[self.0 as usize].symbols;
        let mut out: Vec<(String, Symbol)> = Vec::new();
        let mut i: usize = 0;
        while i < table.len()
            invariant
                table.wf(),
                i <= table.order().len(),
                out@.len() == i,
                forall|j: int|
                    0 <= j < i ==> (#[trigger] out@[j]).0@ == table.order()[j] && out@[j].1
                        == table@[table.order()[j]].symbol,
            decreases table.order().len() - i,
        {
            let entry = table.entry_at(i);
            out.push((entry.0.clone(), entry.1.symbol));
            i += 1;
        }
        out
    }

    pub fn symbol_exists(self, db: &Database, name: &str) -> (r: bool)
        requires
            db.has_module(self),
        ensures
            r == db.module_at(self).symbols@.contains_key(name@),
    {
        db.modules[self.0 as usize].symbols.contains_key(name)
    }

    /// The symbol named `name`, if it belongs to this module: a class, a trait,
    /// a constant or a method that the module defines, or the module itself.
    /// Type parameters can't be imported. Whatever is found under `name` is
    /// marked as used.
    pub fn import_symbol(self, db: &mut Database, name: &str) -> (r: Option<Symbol>)
        requires
            old(db).wf(),
            old(db).has_module(self),
        ensures
            r == (match old(db).symbol_of(self, name@) {
                Some(symbol) if symbol_home(old(db), symbol) == Some(self) => Some(symbol),
                _ => None,
            }),
            final(db).module_changed(
                old(db),
                self,
                Module { symbols: final(db).module_at(self).symbols, ..old(db).module_at(self) },
            ),
            final(db).module_at(self).symbols.order() == old(db).module_at(self).symbols.order(),
            final(db).module_at(self).symbols@ == (match old(db).symbol_of(self, name@) {
                Some(symbol) => old(db).module_at(self).symbols@.insert(
                    name@,
                    ModuleSymbol { symbol, used: true },
                ),
                None => old(db).module_at(self).symbols@,
            }),
            final(db).wf(),
    {
        proof {
            assert(db.modules@[self.0 as int].wf(db.bounds()));
        }
        let symbol = match self.use_symbol(db, name) {
            Some(symbol) => symbol,
            None => {
                return None;
            },
        };
        proof {
            assert(old(db).module_at(self).symbols@.contains_key(name@));
            assert(symbol_valid(symbol, db.bounds()));
        }
        let module_id = match symbol {
            Symbol::Class(id) => id.module(db),
            Symbol::Trait(id) => id.module(db),
            Symbol::Constant(id) => db.constants[id.0].module,
            Symbol::Method(id) => id.module(db),
            Symbol::Module(id) => id,
            // Type parameters can't be imported.
            Symbol::TypeParameter(_) => {
                return None;
            },
        };

        if self == module_id {
            Some(symbol)
        } else {
            None
        }
    }

    /// Lets `name` stand for `symbol` in the module. The symbol counts as
    /// unused.
    pub fn new_symbol(self, db: &mut Database, name: String, symbol: Symbol)
        requires
            old(db).has_module(self),
            old(db).module_at(self).symbols.wf(),
        ensures
            final(db).module_changed(
                old(db),
                self,
                Module { symbols: final(db).module_at(self).symbols, ..old(db).module_at(self) },
            ),
            final(db).module_at(self).symbols.wf(),
            final(db).module_at(self).symbols@ == old(db).module_at(self).symbols@.insert(
                name@,
                ModuleSymbol { symbol, used: false },
            ),
            final(db).module_at(self).symbols.order() == (if old(db).module_at(
                self,
            ).symbols@.contains_key(name@) {
                old(db).module_at(self).symbols.order()
            } else {
                old(db).module_at(self).symbols.order().push(name@)
            }),
            old(db).wf() && symbol_valid(symbol, old(db).bounds()) ==> final(db).wf(),
    {
        let ghost before = *db;
        db.modules[self.0 as usize].symbols.insert(name, ModuleSymbol { symbol, used: false });
        proof {
            assert(db.modules@ =~= before.modules@.update(
                self.0 as int,
                Module { symbols: db.module_at(self).symbols, ..before.module_at(self) },
            ));
            if before.wf() && symbol_valid(symbol, before.bounds()) {
                assert(before.modules@[self.0 as int].wf(before.bounds()));
                assert(db.modules@[self.0 as int].wf(db.bounds()));
            }
        }
    }

    /// The static method of the module that is named `name`.
    pub fn method(self, db: &Database, name: &str) -> (r: Option<MethodId>)
        requires
            db.has_module(self),
            db.has_class(db.module_at(self).class),
        ensures
            r == db.class(db.module_at(self).class).methods.lookup(name@),
            db.wf() && r is Some ==> db.has_method(r.unwrap()),
    {
        db.modules[self.0 as usize].class.method(db, name)
    }

    /// The static methods of the module.
    pub fn methods(self, db: &Database) -> (r: Vec<MethodId>)
        requires
            db.has_module(self),
            db.has_class(db.module_at(self).class),
            db.class(db.module_at(self).class).methods.wf(),
        ensures
            r@ == db.class(db.module_at(self).class).methods.ordered_values(),
    {
        db.modules[self.0 as usize].class.methods(db)
    }

    /// The classes that the module defines, leaving out the ones that the
    /// compiler generated: their names start with a dollar sign.
    pub fn classes(self, db: &Database) -> (r: Vec<ClassId>)
        requires
            db.wf(),
            db.has_module(self),
        ensures
            r@ == own_classes(
                db,
                self,
                db.module_at(self).symbols@,
                db.module_at(self).symbols.order(),
            ),
    {
        proof {
            assert(db.modules@[self.0 as int].wf(db.bounds()));
        }
        let table = &db.modules[self.0 as usize].symbols;
        let mut out: Vec<ClassId> = Vec::new();
        let mut i: usize = 0;
        while i < table.len()
            invariant
                db.wf(),
                db.has_module(self),
                *table == db.module_at(self).symbols,
                table.wf(),
                i <= table.order().len(),
                out@ == own_classes(db, self, table@, table.order().subrange(0, i as int)),
            decreases table.order().len() - i,
        {
            let entry = table.entry_at(i);
            proof {
                assert(db.modules@[self.0 as int].wf(db.bounds()));
                assert(table@.contains_key(table.order()[i as int]));
                assert(table.order().subrange(0, i + 1).drop_last() =~= table.order().subrange(
                    0,
                    i as int,
                ));
            }
            match entry.1.symbol {
                Symbol::Class(id) => {
                    let name = entry.0.as_str();
                    let generated = !name.is_empty() && name.get_char(0) == '$';
                    if id.module(db) == self && !generated {
                        out.push(id);
                    }
                },
                _ => {},
            }
            i += 1;
        }
        assert(table.order().subrange(0, table.order().len() as int) =~= table.order());
        out
    }

    /// The traits that the module defines.
    pub fn traits(self, db: &Database) -> (r: Vec<TraitId>)
        requires
            db.wf(),
            db.has_module(self),
        ensures
            r@ == own_traits(db, self, db.module_at(self).symbols@,
                db.module_at(self).symbols.order()),
    {
        proof {
            assert(db.modules@[self.0 as int].wf(db.bounds()));
        }
        let table = &db.modules[self.0 as usize].symbols;
        let mut out: Vec<TraitId> = Vec::new();
        let mut i: usize = 0;
        while i < table.len()
            invariant
                db.wf(),
                db.has_module(self),
                *table == db.module_at(self).symbols,
                table.wf(),
                i <= table.order().len(),
                out@ == own_traits(db, self, table@, table.order().subrange(0, i as int)),
            decreases table.order().len() - i,
        {
            let entry = table.entry_at(i);
            proof {
                assert(db.modules@[self.0 as int].wf(db.bounds()));
                assert(table@.contains_key(table.order()[i as int]));
                assert(table.order().subrange(0, i + 1).drop_last() =~= table.order().subrange(
                    0,
                    i as int,
                ));
            }
            match entry.1.symbol {
                Symbol::Trait(id) => {
                    if id.module(db) == self {
                        out.push(id);
                    }
                },
                _ => {},
            }
            i += 1;
        }
        assert(table.order().subrange(0, table.order().len() as int) =~= table.order());
        out
    }

    /// Adds a static method to the module.
    pub fn add_method(self, db: &mut Database, name: String, method: MethodId)
        requires
            old(db).has_module(self),
            old(db).has_class(old(db).module_at(self).class),
            old(db).class(old(db).module_at(self).class).methods.wf(),
        ensures
            final(db).class_changed(
                old(db),
                old(db).module_at(self).class,
                Class {
                    methods: final(db).class(old(db).module_at(self).class).methods,
                    ..old(db).class(old(db).module_at(self).class)
                },
            ),
            final(db).class(old(db).module_at(self).class).methods@ == old(db).class(
                old(db).module_at(self).class,
            ).methods@.insert(name@, method),
            old(db).wf() && old(db).has_method(method) ==> final(db).wf(),
    {
        let class = db.modules[self.0 as usize].class;
        class.add_method(db, name, method);
    }

    /// Adds an external method to the module, under the method's own name.
    pub fn add_extern_method(self, db: &mut Database, method: MethodId)
        requires
            old(db).has_module(self),
            old(db).has_method(method),
            old(db).module_at(self).extern_methods.wf(),
        ensures
            final(db).module_changed(
                old(db),
                self,
                Module { extern_methods: final(db).module_at(self).extern_methods,
                    ..old(db).module_at(self) },
            ),
            final(db).module_at(self).extern_methods.wf(),
            final(db).module_at(self).extern_methods@
                == old(db).module_at(self).extern_methods@.insert(
                old(db).method(method).name@,
                method,
            ),
            old(db).wf() ==> final(db).wf(),
    {
        let ghost before = *db;
        let name = db.methods[method.0 as usize].name.clone();

        db.modules[self.0 as usize].extern_methods.insert(name, method);
        proof {
            assert(db.modules@ =~= before.modules@.update(
                self.0 as int,
                Module { extern_methods: db.module_at(self).extern_methods,
                    ..before.module_at(self) },
            ));
            if before.wf() {
                assert(before.modules@[self.0 as int].wf(before.bounds()));
                assert(db.modules@[self.0 as int].wf(db.bounds()));
            }
        }
    }

    pub fn extern_method(self, db: &Database, name: &str) -> (r: Option<MethodId>)
        requires
            db.has_module(self),
        ensures
            r == db.module_at(self).extern_methods.lookup(name@),
    {
        db.modules[self.0 as usize].extern_methods.get(name)
    }

    /// The external methods of the module, by their names.
    pub fn extern_methods(self, db: &Database) -> (r: &NameMap<MethodId>)
        requires
            db.has_module(self),
        ensures
            *r == db.module_at(self).extern_methods,
    {
        &db.modules[self.0 as usize].extern_methods
    }

    /// True if the module is part of the standard library.
    pub fn is_std(self, db: &Database) -> (r: bool)
        requires
            db.has_module(self),
        ensures
            r == (crate::module_name::head(db.module_at(self).name@) == seq!['s', 't', 'd']
                && !crate::module_name::is_root(db.module_at(self).name@)),
    {
        db.modules[self.0 as usize].name.is_std()
    }

    /// The class that holds the static methods of the module.
    pub fn class(self, db: &Database) -> (r: ClassId)
        requires
            db.has_module(self),
        ensures
            r == db.module_at(self).class,
            db.wf() ==> db.has_class(r),
    {
        proof {
            if db.wf() {
                assert(db.modules@[self.0 as int].wf(db.bounds()));
            }
        }
        db.modules[self.0 as usize].class
    }

    /// Whether the private symbols of this module can be seen from `other`:
    /// both are in the same root namespace, or `other` is the root module that
    /// tests the root namespace of this module.
    pub fn has_same_root_namespace(self, db: &Database, other: ModuleId) -> (r: bool)
        requires
            db.has_module(self),
            db.has_module(other),
        ensures
            r == same_root_namespace(db.module_at(self).name@, db.module_at(other).name@),
    {
        db.modules[self.0 as usize].name.shares_root_namespace(&db.modules[other.0 as usize].name)
    }
}

} // verus!
