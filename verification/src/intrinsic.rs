//! The functions that the compiler itself implements.
use vstd::prelude::*;
use crate::collections::name_map::NameMap;
use crate::type_ref::{ClassId, ClassInstance, ForeignType, Sign, TypeId, TypeRef};
use crate::{BOOL_ID, CHECKED_INT_RESULT_ID, FLOAT_ID, INT_ID, NIL_ID, STRING_ID};

verus! {

#[derive(Copy, Clone, Debug, Eq, PartialEq, Hash, Structural)]
pub enum Intrinsic {
    FloatAdd,
    FloatCeil,
    FloatDiv,
    FloatEq,
    FloatFloor,
    FloatFromBits,
    FloatGe,
    FloatGt,
    FloatIsInf,
    FloatIsNan,
    FloatLe,
    FloatLt,
    FloatMod,
    FloatMul,
    FloatSub,
    FloatToBits,
    IntBitAnd,
    IntBitNot,
    IntBitOr,
    IntBitXor,
    IntDiv,
    IntEq,
    IntGe,
    IntGt,
    IntLe,
    IntLt,
    IntRem,
    IntRotateLeft,
    IntRotateRight,
    IntShl,
    IntShr,
    IntUnsignedShr,
    IntWrappingAdd,
    IntWrappingMul,
    IntWrappingSub,
    Moved,
    Panic,
    StringConcat,
    State,
    Process,
    FloatRound,
    FloatPowi,
    IntCheckedAdd,
    IntCheckedMul,
    IntCheckedSub,
    IntSwapBytes,
    IntAbsolute,
    IntCompareSwap,
    SpinLoopHint,
    BoolEq,
}

/// What an intrinsic gives back, by kind.
pub enum IntrinsicResult {
    /// A `Float`.
    Float,
    /// An `Int`.
    Integer,
    /// A `Bool`.
    Boolean,
    /// A `String`.
    String,
    /// Nothing of use: `Nil`.
    Nil,
    /// The result of a checked integer operation: the value and a flag that
    /// tells if the operation overflowed.
    Checked,
    /// A pointer to data of the runtime, which the compiler treats as a byte.
    RuntimePointer,
    /// The intrinsic never returns.
    Never,
}

impl IntrinsicResult {
    /// The type that stands for this kind of result.
    pub open spec fn type_ref(self) -> TypeRef {
        match self {
            IntrinsicResult::Float => TypeRef::owned_instance(FLOAT_ID),
            IntrinsicResult::Integer => TypeRef::owned_instance(INT_ID),
            IntrinsicResult::Boolean => TypeRef::owned_instance(BOOL_ID),
            IntrinsicResult::String => TypeRef::owned_instance(STRING_ID),
            IntrinsicResult::Nil => TypeRef::owned_instance(NIL_ID),
            IntrinsicResult::Checked => TypeRef::owned_instance(CHECKED_INT_RESULT_ID),
            IntrinsicResult::RuntimePointer => TypeRef::Pointer(
                TypeId::Foreign(ForeignType::Int(8, Sign::Unsigned)),
            ),
            IntrinsicResult::Never => TypeRef::Never,
        }
    }
}

impl Intrinsic {
    /// The name by which source code refers to the intrinsic.
    pub open spec fn spec_name(self) -> Seq<char> {
        match self {
            Intrinsic::FloatAdd => "float_add"@,
            Intrinsic::FloatCeil => "float_ceil"@,
            Intrinsic::FloatDiv => "float_div"@,
            Intrinsic::FloatEq => "float_eq"@,
            Intrinsic::FloatFloor => "float_floor"@,
            Intrinsic::FloatFromBits => "float_from_bits"@,
            Intrinsic::FloatGe => "float_ge"@,
            Intrinsic::FloatGt => "float_gt"@,
            Intrinsic::FloatIsInf => "float_is_inf"@,
            Intrinsic::FloatIsNan => "float_is_nan"@,
            Intrinsic::FloatLe => "float_le"@,
            Intrinsic::FloatLt => "float_lt"@,
            Intrinsic::FloatMod => "float_mod"@,
            Intrinsic::FloatMul => "float_mul"@,
            Intrinsic::FloatSub => "float_sub"@,
            Intrinsic::FloatToBits => "float_to_bits"@,
            Intrinsic::IntBitAnd => "int_bit_and"@,
            Intrinsic::IntBitNot => "int_bit_not"@,
            Intrinsic::IntBitOr => "int_bit_or"@,
            Intrinsic::IntBitXor => "int_bit_xor"@,
            Intrinsic::IntDiv => "int_div"@,
            Intrinsic::IntEq => "int_eq"@,
            Intrinsic::IntGe => "int_ge"@,
            Intrinsic::IntGt => "int_gt"@,
            Intrinsic::IntLe => "int_le"@,
            Intrinsic::IntLt => "int_lt"@,
            Intrinsic::IntRem => "int_rem"@,
            Intrinsic::IntRotateLeft => "int_rotate_left"@,
            Intrinsic::IntRotateRight => "int_rotate_right"@,
            Intrinsic::IntShl => "int_shl"@,
            Intrinsic::IntShr => "int_shr"@,
            Intrinsic::IntUnsignedShr => "int_unsigned_shr"@,
            Intrinsic::IntWrappingAdd => "int_wrapping_add"@,
            Intrinsic::IntWrappingMul => "int_wrapping_mul"@,
            Intrinsic::IntWrappingSub => "int_wrapping_sub"@,
            Intrinsic::Moved => "moved"@,
            Intrinsic::Panic => "panic"@,
            Intrinsic::StringConcat => "string_concat"@,
            Intrinsic::State => "state"@,
            Intrinsic::Process => "process"@,
            Intrinsic::FloatRound => "float_round"@,
            Intrinsic::FloatPowi => "float_powi"@,
            Intrinsic::IntCheckedAdd => "int_checked_add"@,
            Intrinsic::IntCheckedMul => "int_checked_mul"@,
            Intrinsic::IntCheckedSub => "int_checked_sub"@,
            Intrinsic::IntSwapBytes => "int_swap_bytes"@,
            Intrinsic::IntAbsolute => "int_absolute"@,
            Intrinsic::IntCompareSwap => "int_compare_swap"@,
            Intrinsic::SpinLoopHint => "spin_loop_hint"@,
            Intrinsic::BoolEq => "bool_eq"@,
        }
    }

    /// The kind of value that the intrinsic gives back: the comparisons and
    /// tests give a boolean; the checked integer operations give a checked
    /// result; `moved` and `spin_loop_hint` give nil; `panic` never returns;
    /// `state` and `process` give a pointer into the runtime; `string_concat`
    /// gives a string; `float_to_bits` and the other integer operations give an
    /// integer; the other float operations give a float.
    pub open spec fn result(self) -> IntrinsicResult {
        match self {
            Intrinsic::FloatEq
            | Intrinsic::FloatGe
            | Intrinsic::FloatGt
            | Intrinsic::FloatIsInf
            | Intrinsic::FloatIsNan
            | Intrinsic::FloatLe
            | Intrinsic::FloatLt
            | Intrinsic::IntEq
            | Intrinsic::IntGe
            | Intrinsic::IntGt
            | Intrinsic::IntLe
            | Intrinsic::IntLt
            | Intrinsic::IntCompareSwap
            | Intrinsic::BoolEq => IntrinsicResult::Boolean,
            Intrinsic::IntCheckedAdd
            | Intrinsic::IntCheckedMul
            | Intrinsic::IntCheckedSub => IntrinsicResult::Checked,
            Intrinsic::Moved
            | Intrinsic::SpinLoopHint => IntrinsicResult::Nil,
            Intrinsic::Panic => IntrinsicResult::Never,
            Intrinsic::State
            | Intrinsic::Process => IntrinsicResult::RuntimePointer,
            Intrinsic::StringConcat => IntrinsicResult::String,
            Intrinsic::FloatToBits
            | Intrinsic::IntBitAnd
            | Intrinsic::IntBitNot
            | Intrinsic::IntBitOr
            | Intrinsic::IntBitXor
            | Intrinsic::IntDiv
            | Intrinsic::IntRem
            | Intrinsic::IntRotateLeft
            | Intrinsic::IntRotateRight
            | Intrinsic::IntShl
            | Intrinsic::IntShr
            | Intrinsic::IntUnsignedShr
            | Intrinsic::IntWrappingAdd
            | Intrinsic::IntWrappingMul
            | Intrinsic::IntWrappingSub
            | Intrinsic::IntSwapBytes
            | Intrinsic::IntAbsolute => IntrinsicResult::Integer,
            _ => IntrinsicResult::Float,
        }
    }

    /// Every intrinsic, in the order in which `mapping` adds them.
    pub fn all() -> (r: Vec<Intrinsic>)
        ensures
            forall|i: Intrinsic| r@.contains(i),
            r@.no_duplicates(),
    {
        let r = vec![
            Intrinsic::FloatAdd,
            Intrinsic::FloatCeil,
            Intrinsic::FloatDiv,
            Intrinsic::FloatEq,
            Intrinsic::FloatFloor,
            Intrinsic::FloatFromBits,
            Intrinsic::FloatGe,
            Intrinsic::FloatGt,
            Intrinsic::FloatIsInf,
            Intrinsic::FloatIsNan,
            Intrinsic::FloatLe,
            Intrinsic::FloatLt,
            Intrinsic::FloatMod,
            Intrinsic::FloatMul,
            Intrinsic::FloatSub,
            Intrinsic::FloatToBits,
            Intrinsic::IntBitAnd,
            Intrinsic::IntBitNot,
            Intrinsic::IntBitOr,
            Intrinsic::IntBitXor,
            Intrinsic::IntDiv,
            Intrinsic::IntEq,
            Intrinsic::IntGe,
            Intrinsic::IntGt,
            Intrinsic::IntLe,
            Intrinsic::IntLt,
            Intrinsic::IntRem,
            Intrinsic::IntRotateLeft,
            Intrinsic::IntRotateRight,
            Intrinsic::IntShl,
            Intrinsic::IntShr,
            Intrinsic::IntUnsignedShr,
            Intrinsic::IntWrappingAdd,
            Intrinsic::IntWrappingMul,
            Intrinsic::IntWrappingSub,
            Intrinsic::IntCheckedAdd,
            Intrinsic::IntCheckedMul,
            Intrinsic::IntCheckedSub,
            Intrinsic::Moved,
            Intrinsic::Panic,
            Intrinsic::StringConcat,
            Intrinsic::State,
            Intrinsic::Process,
            Intrinsic::FloatRound,
            Intrinsic::FloatPowi,
            Intrinsic::IntSwapBytes,
            Intrinsic::IntAbsolute,
            Intrinsic::IntCompareSwap,
            Intrinsic::SpinLoopHint,
            Intrinsic::BoolEq,
        ];
        proof {
            assert forall|i: Intrinsic| r@.contains(i) by {
                match i {
                    Intrinsic::FloatAdd => assert(r@[0] == i),
                    Intrinsic::FloatCeil => assert(r@[1] == i),
                    Intrinsic::FloatDiv => assert(r@[2] == i),
                    Intrinsic::FloatEq => assert(r@[3] == i),
                    Intrinsic::FloatFloor => assert(r@[4] == i),
                    Intrinsic::FloatFromBits => assert(r@[5] == i),
                    Intrinsic::FloatGe => assert(r@[6] == i),
                    Intrinsic::FloatGt => assert(r@[7] == i),
                    Intrinsic::FloatIsInf => assert(r@[8] == i),
                    Intrinsic::FloatIsNan => assert(r@[9] == i),
                    Intrinsic::FloatLe => assert(r@[10] == i),
                    Intrinsic::FloatLt => assert(r@[11] == i),
                    Intrinsic::FloatMod => assert(r@[12] == i),
                    Intrinsic::FloatMul => assert(r@[13] == i),
                    Intrinsic::FloatSub => assert(r@[14] == i),
                    Intrinsic::FloatToBits => assert(r@[15] == i),
                    Intrinsic::IntBitAnd => assert(r@[16] == i),
                    Intrinsic::IntBitNot => assert(r@[17] == i),
                    Intrinsic::IntBitOr => assert(r@[18] == i),
                    Intrinsic::IntBitXor => assert(r@[19] == i),
                    Intrinsic::IntDiv => assert(r@[20] == i),
                    Intrinsic::IntEq => assert(r@[21] == i),
                    Intrinsic::IntGe => assert(r@[22] == i),
                    Intrinsic::IntGt => assert(r@[23] == i),
                    Intrinsic::IntLe => assert(r@[24] == i),
                    Intrinsic::IntLt => assert(r@[25] == i),
                    Intrinsic::IntRem => assert(r@[26] == i),
                    Intrinsic::IntRotateLeft => assert(r@[27] == i),
                    Intrinsic::IntRotateRight => assert(r@[28] == i),
                    Intrinsic::IntShl => assert(r@[29] == i),
                    Intrinsic::IntShr => assert(r@[30] == i),
                    Intrinsic::IntUnsignedShr => assert(r@[31] == i),
                    Intrinsic::IntWrappingAdd => assert(r@[32] == i),
                    Intrinsic::IntWrappingMul => assert(r@[33] == i),
                    Intrinsic::IntWrappingSub => assert(r@[34] == i),
                    Intrinsic::IntCheckedAdd => assert(r@[35] == i),
                    Intrinsic::IntCheckedMul => assert(r@[36] == i),
                    Intrinsic::IntCheckedSub => assert(r@[37] == i),
                    Intrinsic::Moved => assert(r@[38] == i),
                    Intrinsic::Panic => assert(r@[39] == i),
                    Intrinsic::StringConcat => assert(r@[40] == i),
                    Intrinsic::State => assert(r@[41] == i),
                    Intrinsic::Process => assert(r@[42] == i),
                    Intrinsic::FloatRound => assert(r@[43] == i),
                    Intrinsic::FloatPowi => assert(r@[44] == i),
                    Intrinsic::IntSwapBytes => assert(r@[45] == i),
                    Intrinsic::IntAbsolute => assert(r@[46] == i),
                    Intrinsic::IntCompareSwap => assert(r@[47] == i),
                    Intrinsic::SpinLoopHint => assert(r@[48] == i),
                    Intrinsic::BoolEq => assert(r@[49] == i),
                }
            }
        }
        r
    }

    /// The intrinsics by their names.
    pub fn mapping() -> (r: NameMap<Intrinsic>)
        ensures
            r.wf(),
            forall|i: Intrinsic| r@.contains_key(i.spec_name()) && r@[i.spec_name()] == i,
            forall|name: Seq<char>| #[trigger]
                r@.contains_key(name) ==> exists|i: Intrinsic| i.spec_name() == name,
    {
        let all = Intrinsic::all();
        let mut map: NameMap<Intrinsic> = NameMap::new();
        let mut n: usize = 0;
        while n < all.len()
            invariant
                map.wf(),
                n <= all@.len(),
                all@.no_duplicates(),
                forall|j: int|
                    0 <= j < n ==> map@.contains_key(#[trigger] all@[j].spec_name())
                        && map@[all@[j].spec_name()] == all@[j],
                forall|name: Seq<char>| #[trigger]
                    map@.contains_key(name) ==> exists|j: int|
                        0 <= j < n && all@[j].spec_name() == name,
            decreases all@.len() - n,
        {
            let func = all[n];
            let ghost before = map;
            map.insert(func.name().to_owned(), func);
            proof {
                assert forall|j: int| 0 <= j < n + 1 implies map@.contains_key(
                    #[trigger] all@[j].spec_name(),
                ) && map@[all@[j].spec_name()] == all@[j] by {
                    if j < n {
                        Intrinsic::lemma_names_differ(all@[j], func);
                    }
                }
                assert forall|name: Seq<char>| #[trigger] map@.contains_key(name) implies exists|
                    j: int,
                |
                    0 <= j < n + 1 && all@[j].spec_name() == name by {
                    if name == func.spec_name() {
                        assert(all@[n as int].spec_name() == name);
                    } else {
                        assert(before@.contains_key(name));
                        let j = choose|j: int| 0 <= j < n && all@[j].spec_name() == name;
                        assert(all@[j].spec_name() == name);
                    }
                }
            }
            n += 1;
        }
        proof {
            assert forall|i: Intrinsic| map@.contains_key(i.spec_name()) && map@[i.spec_name()]
                == i by {
                assert(all@.contains(i));
                let j = choose|j: int| 0 <= j < all@.len() && all@[j] == i;
                assert(map@.contains_key(all@[j].spec_name()));
            }
        }
        map
    }

    pub fn name(self) -> (r: &'static str)
        ensures
            r@ == self.spec_name(),
    {
        match self {
            Intrinsic::FloatAdd => "float_add",
            Intrinsic::FloatCeil => "float_ceil",
            Intrinsic::FloatDiv => "float_div",
            Intrinsic::FloatEq => "float_eq",
            Intrinsic::FloatFloor => "float_floor",
            Intrinsic::FloatFromBits => "float_from_bits",
            Intrinsic::FloatGe => "float_ge",
            Intrinsic::FloatGt => "float_gt",
            Intrinsic::FloatIsInf => "float_is_inf",
            Intrinsic::FloatIsNan => "float_is_nan",
            Intrinsic::FloatLe => "float_le",
            Intrinsic::FloatLt => "float_lt",
            Intrinsic::FloatMod => "float_mod",
            Intrinsic::FloatMul => "float_mul",
            Intrinsic::FloatSub => "float_sub",
            Intrinsic::FloatToBits => "float_to_bits",
            Intrinsic::IntBitAnd => "int_bit_and",
            Intrinsic::IntBitNot => "int_bit_not",
            Intrinsic::IntBitOr => "int_bit_or",
            Intrinsic::IntBitXor => "int_bit_xor",
            Intrinsic::IntDiv => "int_div",
            Intrinsic::IntEq => "int_eq",
            Intrinsic::IntGe => "int_ge",
            Intrinsic::IntGt => "int_gt",
            Intrinsic::IntLe => "int_le",
            Intrinsic::IntLt => "int_lt",
            Intrinsic::IntRem => "int_rem",
            Intrinsic::IntRotateLeft => "int_rotate_left",
            Intrinsic::IntRotateRight => "int_rotate_right",
            Intrinsic::IntShl => "int_shl",
            Intrinsic::IntShr => "int_shr",
            Intrinsic::IntUnsignedShr => "int_unsigned_shr",
            Intrinsic::IntWrappingAdd => "int_wrapping_add",
            Intrinsic::IntWrappingMul => "int_wrapping_mul",
            Intrinsic::IntWrappingSub => "int_wrapping_sub",
            Intrinsic::Moved => "moved",
            Intrinsic::Panic => "panic",
            Intrinsic::StringConcat => "string_concat",
            Intrinsic::State => "state",
            Intrinsic::Process => "process",
            Intrinsic::FloatRound => "float_round",
            Intrinsic::FloatPowi => "float_powi",
            Intrinsic::IntCheckedAdd => "int_checked_add",
            Intrinsic::IntCheckedMul => "int_checked_mul",
            Intrinsic::IntCheckedSub => "int_checked_sub",
            Intrinsic::IntSwapBytes => "int_swap_bytes",
            Intrinsic::IntAbsolute => "int_absolute",
            Intrinsic::IntCompareSwap => "int_compare_swap",
            Intrinsic::SpinLoopHint => "spin_loop_hint",
            Intrinsic::BoolEq => "bool_eq",
        }
    }

    pub fn return_type(self) -> (r: TypeRef)
        ensures
            r == self.result().type_ref(),
    {
        let checked_result = TypeRef::Owned(
            TypeId::ClassInstance(ClassInstance::new(ClassId::checked_int_result())),
        );

        match self {
            Intrinsic::FloatAdd => TypeRef::float(),
            Intrinsic::FloatCeil => TypeRef::float(),
            Intrinsic::FloatDiv => TypeRef::float(),
            Intrinsic::FloatEq => TypeRef::boolean(),
            Intrinsic::FloatFloor => TypeRef::float(),
            Intrinsic::FloatFromBits => TypeRef::float(),
            Intrinsic::FloatGe => TypeRef::boolean(),
            Intrinsic::FloatGt => TypeRef::boolean(),
            Intrinsic::FloatIsInf => TypeRef::boolean(),
            Intrinsic::FloatIsNan => TypeRef::boolean(),
            Intrinsic::FloatLe => TypeRef::boolean(),
            Intrinsic::FloatLt => TypeRef::boolean(),
            Intrinsic::FloatMod => TypeRef::float(),
            Intrinsic::FloatMul => TypeRef::float(),
            Intrinsic::FloatSub => TypeRef::float(),
            Intrinsic::FloatToBits => TypeRef::integer(),
            Intrinsic::IntBitAnd => TypeRef::integer(),
            Intrinsic::IntBitNot => TypeRef::integer(),
            Intrinsic::IntBitOr => TypeRef::integer(),
            Intrinsic::IntBitXor => TypeRef::integer(),
            Intrinsic::IntDiv => TypeRef::integer(),
            Intrinsic::IntEq => TypeRef::boolean(),
            Intrinsic::IntGe => TypeRef::boolean(),
            Intrinsic::IntGt => TypeRef::boolean(),
            Intrinsic::IntLe => TypeRef::boolean(),
            Intrinsic::IntLt => TypeRef::boolean(),
            Intrinsic::IntRem => TypeRef::integer(),
            Intrinsic::IntRotateLeft => TypeRef::integer(),
            Intrinsic::IntRotateRight => TypeRef::integer(),
            Intrinsic::IntShl => TypeRef::integer(),
            Intrinsic::IntShr => TypeRef::integer(),
            Intrinsic::IntUnsignedShr => TypeRef::integer(),
            Intrinsic::IntWrappingAdd => TypeRef::integer(),
            Intrinsic::IntWrappingMul => TypeRef::integer(),
            Intrinsic::IntWrappingSub => TypeRef::integer(),
            Intrinsic::Moved => TypeRef::nil(),
            Intrinsic::Panic => TypeRef::Never,
            Intrinsic::StringConcat => TypeRef::string(),
            Intrinsic::State => TypeRef::pointer(TypeId::Foreign(ForeignType::Int(8,
                Sign::Unsigned))),
            Intrinsic::Process => TypeRef::pointer(TypeId::Foreign(ForeignType::Int(8,
                Sign::Unsigned))),
            Intrinsic::FloatRound => TypeRef::float(),
            Intrinsic::FloatPowi => TypeRef::float(),
            Intrinsic::IntCheckedAdd => checked_result,
            Intrinsic::IntCheckedMul => checked_result,
            Intrinsic::IntCheckedSub => checked_result,
            Intrinsic::IntSwapBytes => TypeRef::integer(),
            Intrinsic::IntAbsolute => TypeRef::integer(),
            Intrinsic::IntCompareSwap => TypeRef::boolean(),
            Intrinsic::SpinLoopHint => TypeRef::nil(),
            Intrinsic::BoolEq => TypeRef::boolean(),
        }
    }

    /// What tells the names of the intrinsics apart: the length of the name,
    /// with its first and its last two characters.
    spec fn name_mark(name: Seq<char>) -> (nat, char, char, char) {
        (name.len(), name[0], name[name.len() - 2], name[name.len() - 1])
    }

    /// Two intrinsics have two names.
    pub proof fn lemma_names_differ(a: Intrinsic, b: Intrinsic)
        requires
            a != b,
        ensures
            a.spec_name() != b.spec_name(),
    {
        Intrinsic::lemma_name_chars(a);
        Intrinsic::lemma_name_chars(b);
    }

    /// The mark of the name of each intrinsic.
    spec fn mark(self) -> (nat, char, char, char) {
        match self {
            Intrinsic::FloatAdd => (9, 'f', 'd', 'd'),
            Intrinsic::FloatCeil => (10, 'f', 'i', 'l'),
            Intrinsic::FloatDiv => (9, 'f', 'i', 'v'),
            Intrinsic::FloatEq => (8, 'f', 'e', 'q'),
            Intrinsic::FloatFloor => (11, 'f', 'o', 'r'),
            Intrinsic::FloatFromBits => (15, 'f', 't', 's'),
            Intrinsic::FloatGe => (8, 'f', 'g', 'e'),
            Intrinsic::FloatGt => (8, 'f', 'g', 't'),
            Intrinsic::FloatIsInf => (12, 'f', 'n', 'f'),
            Intrinsic::FloatIsNan => (12, 'f', 'a', 'n'),
            Intrinsic::FloatLe => (8, 'f', 'l', 'e'),
            Intrinsic::FloatLt => (8, 'f', 'l', 't'),
            Intrinsic::FloatMod => (9, 'f', 'o', 'd'),
            Intrinsic::FloatMul => (9, 'f', 'u', 'l'),
            Intrinsic::FloatSub => (9, 'f', 'u', 'b'),
            Intrinsic::FloatToBits => (13, 'f', 't', 's'),
            Intrinsic::IntBitAnd => (11, 'i', 'n', 'd'),
            Intrinsic::IntBitNot => (11, 'i', 'o', 't'),
            Intrinsic::IntBitOr => (10, 'i', 'o', 'r'),
            Intrinsic::IntBitXor => (11, 'i', 'o', 'r'),
            Intrinsic::IntDiv => (7, 'i', 'i', 'v'),
            Intrinsic::IntEq => (6, 'i', 'e', 'q'),
            Intrinsic::IntGe => (6, 'i', 'g', 'e'),
            Intrinsic::IntGt => (6, 'i', 'g', 't'),
            Intrinsic::IntLe => (6, 'i', 'l', 'e'),
            Intrinsic::IntLt => (6, 'i', 'l', 't'),
            Intrinsic::IntRem => (7, 'i', 'e', 'm'),
            Intrinsic::IntRotateLeft => (15, 'i', 'f', 't'),
            Intrinsic::IntRotateRight => (16, 'i', 'h', 't'),
            Intrinsic::IntShl => (7, 'i', 'h', 'l'),
            Intrinsic::IntShr => (7, 'i', 'h', 'r'),
            Intrinsic::IntUnsignedShr => (16, 'i', 'h', 'r'),
            Intrinsic::IntWrappingAdd => (16, 'i', 'd', 'd'),
            Intrinsic::IntWrappingMul => (16, 'i', 'u', 'l'),
            Intrinsic::IntWrappingSub => (16, 'i', 'u', 'b'),
            Intrinsic::Moved => (5, 'm', 'e', 'd'),
            Intrinsic::Panic => (5, 'p', 'i', 'c'),
            Intrinsic::StringConcat => (13, 's', 'a', 't'),
            Intrinsic::State => (5, 's', 't', 'e'),
            Intrinsic::Process => (7, 'p', 's', 's'),
            Intrinsic::FloatRound => (11, 'f', 'n', 'd'),
            Intrinsic::FloatPowi => (10, 'f', 'w', 'i'),
            Intrinsic::IntCheckedAdd => (15, 'i', 'd', 'd'),
            Intrinsic::IntCheckedMul => (15, 'i', 'u', 'l'),
            Intrinsic::IntCheckedSub => (15, 'i', 'u', 'b'),
            Intrinsic::IntSwapBytes => (14, 'i', 'e', 's'),
            Intrinsic::IntAbsolute => (12, 'i', 't', 'e'),
            Intrinsic::IntCompareSwap => (16, 'i', 'a', 'p'),
            Intrinsic::SpinLoopHint => (14, 's', 'n', 't'),
            Intrinsic::BoolEq => (7, 'b', 'e', 'q'),
        }
    }

    /// The name of an intrinsic has the mark that `mark` gives for it.
    proof fn lemma_name_chars(a: Intrinsic)
        ensures
            Intrinsic::name_mark(a.spec_name()) == a.mark(),
    {
        match a {
            Intrinsic::FloatAdd => {
                reveal_strlit("float_add");
            },
            Intrinsic::FloatCeil => {
                reveal_strlit("float_ceil");
            },
            Intrinsic::FloatDiv => {
                reveal_strlit("float_div");
            },
            Intrinsic::FloatEq => {
                reveal_strlit("float_eq");
            },
            Intrinsic::FloatFloor => {
                reveal_strlit("float_floor");
            },
            Intrinsic::FloatFromBits => {
                reveal_strlit("float_from_bits");
            },
            Intrinsic::FloatGe => {
                reveal_strlit("float_ge");
            },
            Intrinsic::FloatGt => {
                reveal_strlit("float_gt");
            },
            Intrinsic::FloatIsInf => {
                reveal_strlit("float_is_inf");
            },
            Intrinsic::FloatIsNan => {
                reveal_strlit("float_is_nan");
            },
            Intrinsic::FloatLe => {
                reveal_strlit("float_le");
            },
            Intrinsic::FloatLt => {
                reveal_strlit("float_lt");
            },
            Intrinsic::FloatMod => {
                reveal_strlit("float_mod");
            },
            Intrinsic::FloatMul => {
                reveal_strlit("float_mul");
            },
            Intrinsic::FloatSub => {
                reveal_strlit("float_sub");
            },
            Intrinsic::FloatToBits => {
                reveal_strlit("float_to_bits");
            },
            Intrinsic::IntBitAnd => {
                reveal_strlit("int_bit_and");
            },
            Intrinsic::IntBitNot => {
                reveal_strlit("int_bit_not");
            },
            Intrinsic::IntBitOr => {
                reveal_strlit("int_bit_or");
            },
            Intrinsic::IntBitXor => {
                reveal_strlit("int_bit_xor");
            },
            Intrinsic::IntDiv => {
                reveal_strlit("int_div");
            },
            Intrinsic::IntEq => {
                reveal_strlit("int_eq");
            },
            Intrinsic::IntGe => {
                reveal_strlit("int_ge");
            },
            Intrinsic::IntGt => {
                reveal_strlit("int_gt");
            },
            Intrinsic::IntLe => {
                reveal_strlit("int_le");
            },
            Intrinsic::IntLt => {
                reveal_strlit("int_lt");
            },
            Intrinsic::IntRem => {
                reveal_strlit("int_rem");
            },
            Intrinsic::IntRotateLeft => {
                reveal_strlit("int_rotate_left");
            },
            Intrinsic::IntRotateRight => {
                reveal_strlit("int_rotate_right");
            },
            Intrinsic::IntShl => {
                reveal_strlit("int_shl");
            },
            Intrinsic::IntShr => {
                reveal_strlit("int_shr");
            },
            Intrinsic::IntUnsignedShr => {
                reveal_strlit("int_unsigned_shr");
            },
            Intrinsic::IntWrappingAdd => {
                reveal_strlit("int_wrapping_add");
            },
            Intrinsic::IntWrappingMul => {
                reveal_strlit("int_wrapping_mul");
            },
            Intrinsic::IntWrappingSub => {
                reveal_strlit("int_wrapping_sub");
            },
            Intrinsic::Moved => {
                reveal_strlit("moved");
            },
            Intrinsic::Panic => {
                reveal_strlit("panic");
            },
            Intrinsic::StringConcat => {
                reveal_strlit("string_concat");
            },
            Intrinsic::State => {
                reveal_strlit("state");
            },
            Intrinsic::Process => {
                reveal_strlit("process");
            },
            Intrinsic::FloatRound => {
                reveal_strlit("float_round");
            },
            Intrinsic::FloatPowi => {
                reveal_strlit("float_powi");
            },
            Intrinsic::IntCheckedAdd => {
                reveal_strlit("int_checked_add");
            },
            Intrinsic::IntCheckedMul => {
                reveal_strlit("int_checked_mul");
            },
            Intrinsic::IntCheckedSub => {
                reveal_strlit("int_checked_sub");
            },
            Intrinsic::IntSwapBytes => {
                reveal_strlit("int_swap_bytes");
            },
            Intrinsic::IntAbsolute => {
                reveal_strlit("int_absolute");
            },
            Intrinsic::IntCompareSwap => {
                reveal_strlit("int_compare_swap");
            },
            Intrinsic::SpinLoopHint => {
                reveal_strlit("spin_loop_hint");
            },
            Intrinsic::BoolEq => {
                reveal_strlit("bool_eq");
            },
        }
    }
}

} // verus!
