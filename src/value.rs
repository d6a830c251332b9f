use vstd::prelude::*;

verus! {

/// Why a field could not be accessed as requested.
#[derive(Clone, Copy, Debug, PartialEq, Eq, Structural)]
pub enum AccessError {
    /// The name is not among the owner's accessible fields.
    NoSuchField,
    /// The field exists, but its value cannot be had as the requested type.
    TypeMismatch,
}

/// The identity tag of a field's concrete type.
#[derive(Clone, Copy, Debug, PartialEq, Eq, Structural)]
pub enum Kind {
    Bool,
    U8,
    U16,
    U32,
    U64,
    U128,
    Usize,
    I8,
    I16,
    I32,
    I64,
    I128,
    Isize,
    String,
    Str,
    VecBool,
    SliceBool,
    VecU8,
    SliceU8,
    VecU16,
    SliceU16,
    VecU32,
    SliceU32,
    VecU64,
    SliceU64,
    VecU128,
    SliceU128,
    VecUsize,
    SliceUsize,
    VecI8,
    SliceI8,
    VecI16,
    SliceI16,
    VecI32,
    SliceI32,
    VecI64,
    SliceI64,
    VecI128,
    SliceI128,
    VecIsize,
    SliceIsize,
}

/// What a field holds: its type tag together with its contents.
pub enum Value {
    Bool(bool),
    U8(u8),
    U16(u16),
    U32(u32),
    U64(u64),
    U128(u128),
    Usize(usize),
    I8(i8),
    I16(i16),
    I32(i32),
    I64(i64),
    I128(i128),
    Isize(isize),
    String(Seq<char>),
    Str(Seq<char>),
    VecBool(Seq<bool>),
    SliceBool(Seq<bool>),
    VecU8(Seq<u8>),
    SliceU8(Seq<u8>),
    VecU16(Seq<u16>),
    SliceU16(Seq<u16>),
    VecU32(Seq<u32>),
    SliceU32(Seq<u32>),
    VecU64(Seq<u64>),
    SliceU64(Seq<u64>),
    VecU128(Seq<u128>),
    SliceU128(Seq<u128>),
    VecUsize(Seq<usize>),
    SliceUsize(Seq<usize>),
    VecI8(Seq<i8>),
    SliceI8(Seq<i8>),
    VecI16(Seq<i16>),
    SliceI16(Seq<i16>),
    VecI32(Seq<i32>),
    SliceI32(Seq<i32>),
    VecI64(Seq<i64>),
    SliceI64(Seq<i64>),
    VecI128(Seq<i128>),
    SliceI128(Seq<i128>),
    VecIsize(Seq<isize>),
    SliceIsize(Seq<isize>),
}

impl Kind {
    pub open spec fn is_unsigned(self) -> bool {
        match self {
            Kind::U8 | Kind::U16 | Kind::U32 | Kind::U64 | Kind::U128 | Kind::Usize => true,
            _ => false,
        }
    }

    pub open spec fn is_signed(self) -> bool {
        match self {
            Kind::I8 | Kind::I16 | Kind::I32 | Kind::I64 | Kind::I128 | Kind::Isize => true,
            _ => false,
        }
    }

    /// Smallest value of an integer kind.
    pub open spec fn min(self) -> int {
        match self {
            Kind::I8 => i8::MIN as int,
            Kind::I16 => i16::MIN as int,
            Kind::I32 => i32::MIN as int,
            Kind::I64 => i64::MIN as int,
            Kind::I128 => i128::MIN as int,
            Kind::Isize => isize::MIN as int,
            _ => 0,
        }
    }

    /// Largest value of an integer kind.
    pub open spec fn max(self) -> int {
        match self {
            Kind::U8 => u8::MAX as int,
            Kind::U16 => u16::MAX as int,
            Kind::U32 => u32::MAX as int,
            Kind::U64 => u64::MAX as int,
            Kind::U128 => u128::MAX as int,
            Kind::Usize => usize::MAX as int,
            Kind::I8 => i8::MAX as int,
            Kind::I16 => i16::MAX as int,
            Kind::I32 => i32::MAX as int,
            Kind::I64 => i64::MAX as int,
            Kind::I128 => i128::MAX as int,
            Kind::Isize => isize::MAX as int,
            _ => 0,
        }
    }

    /// Both kinds are unsigned integers, or both are signed integers.
    pub open spec fn same_family(self, other: Kind) -> bool {
        (self.is_unsigned() && other.is_unsigned()) || (self.is_signed() && other.is_signed())
    }
}

impl Value {
    pub open spec fn kind(self) -> Kind {
        match self {
            Value::Bool(_) => Kind::Bool,
            Value::U8(_) => Kind::U8,
            Value::U16(_) => Kind::U16,
            Value::U32(_) => Kind::U32,
            Value::U64(_) => Kind::U64,
            Value::U128(_) => Kind::U128,
            Value::Usize(_) => Kind::Usize,
            Value::I8(_) => Kind::I8,
            Value::I16(_) => Kind::I16,
            Value::I32(_) => Kind::I32,
            Value::I64(_) => Kind::I64,
            Value::I128(_) => Kind::I128,
            Value::Isize(_) => Kind::Isize,
            Value::String(_) => Kind::String,
            Value::Str(_) => Kind::Str,
            Value::VecBool(_) => Kind::VecBool,
            Value::SliceBool(_) => Kind::SliceBool,
            Value::VecU8(_) => Kind::VecU8,
            Value::SliceU8(_) => Kind::SliceU8,
            Value::VecU16(_) => Kind::VecU16,
            Value::SliceU16(_) => Kind::SliceU16,
            Value::VecU32(_) => Kind::VecU32,
            Value::SliceU32(_) => Kind::SliceU32,
            Value::VecU64(_) => Kind::VecU64,
            Value::SliceU64(_) => Kind::SliceU64,
            Value::VecU128(_) => Kind::VecU128,
            Value::SliceU128(_) => Kind::SliceU128,
            Value::VecUsize(_) => Kind::VecUsize,
            Value::SliceUsize(_) => Kind::SliceUsize,
            Value::VecI8(_) => Kind::VecI8,
            Value::SliceI8(_) => Kind::SliceI8,
            Value::VecI16(_) => Kind::VecI16,
            Value::SliceI16(_) => Kind::SliceI16,
            Value::VecI32(_) => Kind::VecI32,
            Value::SliceI32(_) => Kind::SliceI32,
            Value::VecI64(_) => Kind::VecI64,
            Value::SliceI64(_) => Kind::SliceI64,
            Value::VecI128(_) => Kind::VecI128,
            Value::SliceI128(_) => Kind::SliceI128,
            Value::VecIsize(_) => Kind::VecIsize,
            Value::SliceIsize(_) => Kind::SliceIsize,
        }
    }

    /// The number held, for an integer value.
    pub open spec fn number(self) -> Option<int> {
        match self {
            Value::U8(x) => Some(x as int),
            Value::U16(x) => Some(x as int),
            Value::U32(x) => Some(x as int),
            Value::U64(x) => Some(x as int),
            Value::U128(x) => Some(x as int),
            Value::Usize(x) => Some(x as int),
            Value::I8(x) => Some(x as int),
            Value::I16(x) => Some(x as int),
            Value::I32(x) => Some(x as int),
            Value::I64(x) => Some(x as int),
            Value::I128(x) => Some(x as int),
            Value::Isize(x) => Some(x as int),
            _ => None,
        }
    }

    /// The text held, for an owned string or a string slice.
    pub open spec fn text(self) -> Option<Seq<char>> {
        match self {
            Value::String(s) => Some(s),
            Value::Str(s) => Some(s),
            _ => None,
        }
    }
}

/// The number that reading `v` as the integer kind `k` gives: the stored
/// number when `v` is an integer of the same signedness as `k` and its value
/// lies in `k`'s range, and nothing otherwise.
pub open spec fn numeric_as(v: Value, k: Kind) -> Option<int> {
    match v.number() {
        Some(n) => if v.kind().same_family(k) && k.min() <= n <= k.max() {
            Some(n)
        } else {
            None
        },
        None => None,
    }
}

} // verus!
