//! The type database of the compiler: every declared entity (modules, classes,
//! traits, methods, fields, type parameters, closures, constants) lives in an
//! append-only table of a `Database` and is referred to by an integer ID. On
//! top of the tables sits the algebra of ownership-qualified type references
//! (`TypeRef`), type inference placeholders, and the computation of `Shape`s
//! used as keys when generic code is specialized.
#![allow(clippy::new_without_default)]
#![allow(clippy::len_without_is_empty)]
#![allow(clippy::too_many_arguments)]

use vstd::prelude::*;

pub mod arguments;
pub mod block;
pub mod calls;
pub mod class;
pub mod closure;
pub mod collections;
pub mod constant;
pub mod constructor;
pub mod conversion;
pub mod database;
pub mod deep;
pub mod field;
pub mod inherited;
pub mod instance;
pub mod instruction;
pub mod intern;
pub mod intrinsic;
pub mod kinds;
pub mod laws;
pub mod location;
pub mod lookup;
pub mod method;
pub mod module;
pub mod module_name;
pub mod ownership;
pub mod placeholder;
pub mod predicates;
pub mod process;
pub mod recursive_argument;
pub mod registry;
pub mod sendable;
pub mod shape;
pub mod text;
pub mod throw;
pub mod traits;
pub mod type_parameter;
pub mod type_ref;
pub mod variable;
pub mod visibility;

verus! {

// The IDs of the built-in classes. The runtime relies on this exact order.
pub const STRING_ID: u32 = 0;

pub const BYTE_ARRAY_ID: u32 = 1;

pub const INT_ID: u32 = 2;

pub const FLOAT_ID: u32 = 3;

pub const BOOL_ID: u32 = 4;

pub const NIL_ID: u32 = 5;

pub const TUPLE1_ID: u32 = 6;

pub const TUPLE2_ID: u32 = 7;

pub const TUPLE3_ID: u32 = 8;

pub const TUPLE4_ID: u32 = 9;

pub const TUPLE5_ID: u32 = 10;

pub const TUPLE6_ID: u32 = 11;

pub const TUPLE7_ID: u32 = 12;

pub const TUPLE8_ID: u32 = 13;

pub const ARRAY_ID: u32 = 14;

pub const CHECKED_INT_RESULT_ID: u32 = 15;

pub const INT_NAME: &'static str = "Int";

pub const FLOAT_NAME: &'static str = "Float";

pub const STRING_NAME: &'static str = "String";

pub const ARRAY_NAME: &'static str = "Array";

pub const BOOL_NAME: &'static str = "Bool";

pub const NIL_NAME: &'static str = "Nil";

pub const BYTE_ARRAY_NAME: &'static str = "ByteArray";

pub const TUPLE1_NAME: &'static str = "Tuple1";

pub const TUPLE2_NAME: &'static str = "Tuple2";

pub const TUPLE3_NAME: &'static str = "Tuple3";

pub const TUPLE4_NAME: &'static str = "Tuple4";

pub const TUPLE5_NAME: &'static str = "Tuple5";

pub const TUPLE6_NAME: &'static str = "Tuple6";

pub const TUPLE7_NAME: &'static str = "Tuple7";

pub const TUPLE8_NAME: &'static str = "Tuple8";

pub const CHECKED_INT_RESULT_NAME: &'static str = "CheckedIntResult";

pub const STRING_MODULE: &'static str = "std.string";

pub const TO_STRING_TRAIT: &'static str = "ToString";

pub const TO_STRING_METHOD: &'static str = "to_string";

pub const CALL_METHOD: &'static str = "call";

pub const EQ_METHOD: &'static str = "==";

pub const MAIN_CLASS: &'static str = "Main";

pub const MAIN_METHOD: &'static str = "main";

pub const DROP_MODULE: &'static str = "std.drop";

pub const DROP_TRAIT: &'static str = "Drop";

pub const DROP_METHOD: &'static str = "drop";

pub const DROPPER_METHOD: &'static str = "$dropper";

pub const ASYNC_DROPPER_METHOD: &'static str = "$async_dropper";

pub const OPTION_MODULE: &'static str = "std.option";

pub const OPTION_CLASS: &'static str = "Option";

pub const RESULT_MODULE: &'static str = "std.result";

pub const RESULT_CLASS: &'static str = "Result";

pub const OPTION_SOME: &'static str = "Some";

pub const OPTION_NONE: &'static str = "None";

pub const RESULT_OK: &'static str = "Ok";

pub const RESULT_ERROR: &'static str = "Error";

pub const ARRAY_WITH_CAPACITY: &'static str = "with_capacity";

pub const ARRAY_PUSH: &'static str = "push";

pub const ARRAY_INTERNAL_NAME: &'static str = "$Array";

/// The name of the pseudo field used to dereference a pointer.
pub const DEREF_POINTER_FIELD: &'static str = "0";

pub const ENUM_TAG_FIELD: &'static str = "tag";

/// When a symbol is using this name, the source module should be imported
/// instead of the symbol.
pub const IMPORT_MODULE_ITSELF_NAME: &'static str = "self";

/// The ID of the first class that isn't built in.
pub const FIRST_USER_CLASS_ID: u32 = CHECKED_INT_RESULT_ID + 1;

/// The module ID given to built-in classes until a `builtin class` definition
/// corrects it.
pub const DEFAULT_BUILTIN_MODULE_ID: u32 = 0;

pub const ENUM_TAG_INDEX: usize = 0;

/// The maximum number of enum constructors that a single class can define.
pub const CONSTRUCTORS_LIMIT: usize = 65535;

/// The maximum number of fields a class can define.
pub const FIELDS_LIMIT: usize = 255;

/// The maximum number of values that can be stored in an array literal.
pub const ARRAY_LIMIT: usize = 65535;

/// The maximum number of methods supported.
///
/// This is one less than the u32 maximum, so that `u32::MAX` can serve as a
/// sentinel value.
pub const METHODS_LIMIT: usize = 4294967294;

} // verus!
