use vstd::prelude::*;

use crate::value::{Kind, Value};

verus! {

/// A shared, type-erased reference to one field's storage.
///
/// The variant is the identity tag of the field's type; the payload borrows
/// the field itself.
#[derive(Clone, Copy, Debug)]
pub enum AnyRef<'a> {
    Bool(&'a bool),
    U8(&'a u8),
    U16(&'a u16),
    U32(&'a u32),
    U64(&'a u64),
    U128(&'a u128),
    Usize(&'a usize),
    I8(&'a i8),
    I16(&'a i16),
    I32(&'a i32),
    I64(&'a i64),
    I128(&'a i128),
    Isize(&'a isize),
    String(&'a String),
    Str(&'a &'static str),
    VecBool(&'a Vec<bool>),
    SliceBool(&'a &'static [bool]),
    VecU8(&'a Vec<u8>),
    SliceU8(&'a &'static [u8]),
    VecU16(&'a Vec<u16>),
    SliceU16(&'a &'static [u16]),
    VecU32(&'a Vec<u32>),
    SliceU32(&'a &'static [u32]),
    VecU64(&'a Vec<u64>),
    SliceU64(&'a &'static [u64]),
    VecU128(&'a Vec<u128>),
    SliceU128(&'a &'static [u128]),
    VecUsize(&'a Vec<usize>),
    SliceUsize(&'a &'static [usize]),
    VecI8(&'a Vec<i8>),
    SliceI8(&'a &'static [i8]),
    VecI16(&'a Vec<i16>),
    SliceI16(&'a &'static [i16]),
    VecI32(&'a Vec<i32>),
    SliceI32(&'a &'static [i32]),
    VecI64(&'a Vec<i64>),
    SliceI64(&'a &'static [i64]),
    VecI128(&'a Vec<i128>),
    SliceI128(&'a &'static [i128]),
    VecIsize(&'a Vec<isize>),
    SliceIsize(&'a &'static [isize]),
}

/// An exclusive, type-erased reference to one field's storage.
#[derive(Debug)]
pub enum AnyMut<'a> {
    Bool(&'a mut bool),
    U8(&'a mut u8),
    U16(&'a mut u16),
    U32(&'a mut u32),
    U64(&'a mut u64),
    U128(&'a mut u128),
    Usize(&'a mut usize),
    I8(&'a mut i8),
    I16(&'a mut i16),
    I32(&'a mut i32),
    I64(&'a mut i64),
    I128(&'a mut i128),
    Isize(&'a mut isize),
    String(&'a mut String),
    Str(&'a mut &'static str),
    VecBool(&'a mut Vec<bool>),
    SliceBool(&'a mut &'static [bool]),
    VecU8(&'a mut Vec<u8>),
    SliceU8(&'a mut &'static [u8]),
    VecU16(&'a mut Vec<u16>),
    SliceU16(&'a mut &'static [u16]),
    VecU32(&'a mut Vec<u32>),
    SliceU32(&'a mut &'static [u32]),
    VecU64(&'a mut Vec<u64>),
    SliceU64(&'a mut &'static [u64]),
    VecU128(&'a mut Vec<u128>),
    SliceU128(&'a mut &'static [u128]),
    VecUsize(&'a mut Vec<usize>),
    SliceUsize(&'a mut &'static [usize]),
    VecI8(&'a mut Vec<i8>),
    SliceI8(&'a mut &'static [i8]),
    VecI16(&'a mut Vec<i16>),
    SliceI16(&'a mut &'static [i16]),
    VecI32(&'a mut Vec<i32>),
    SliceI32(&'a mut &'static [i32]),
    VecI64(&'a mut Vec<i64>),
    SliceI64(&'a mut &'static [i64]),
    VecI128(&'a mut Vec<i128>),
    SliceI128(&'a mut &'static [i128]),
    VecIsize(&'a mut Vec<isize>),
    SliceIsize(&'a mut &'static [isize]),
}

impl<'a> View for AnyRef<'a> {
    type V = Value;

    open spec fn view(&self) -> Value {
        match *self {
            AnyRef::Bool(x) => Value::Bool(*x),
            AnyRef::U8(x) => Value::U8(*x),
            AnyRef::U16(x) => Value::U16(*x),
            AnyRef::U32(x) => Value::U32(*x),
            AnyRef::U64(x) => Value::U64(*x),
            AnyRef::U128(x) => Value::U128(*x),
            AnyRef::Usize(x) => Value::Usize(*x),
            AnyRef::I8(x) => Value::I8(*x),
            AnyRef::I16(x) => Value::I16(*x),
            AnyRef::I32(x) => Value::I32(*x),
            AnyRef::I64(x) => Value::I64(*x),
            AnyRef::I128(x) => Value::I128(*x),
            AnyRef::Isize(x) => Value::Isize(*x),
            AnyRef::String(x) => Value::String(x@),
            AnyRef::Str(x) => Value::Str((*x)@),
            AnyRef::VecBool(x) => Value::VecBool(x@),
            AnyRef::SliceBool(x) => Value::SliceBool((*x)@),
            AnyRef::VecU8(x) => Value::VecU8(x@),
            AnyRef::SliceU8(x) => Value::SliceU8((*x)@),
            AnyRef::VecU16(x) => Value::VecU16(x@),
            AnyRef::SliceU16(x) => Value::SliceU16((*x)@),
            AnyRef::VecU32(x) => Value::VecU32(x@),
            AnyRef::SliceU32(x) => Value::SliceU32((*x)@),
            AnyRef::VecU64(x) => Value::VecU64(x@),
            AnyRef::SliceU64(x) => Value::SliceU64((*x)@),
            AnyRef::VecU128(x) => Value::VecU128(x@),
            AnyRef::SliceU128(x) => Value::SliceU128((*x)@),
            AnyRef::VecUsize(x) => Value::VecUsize(x@),
            AnyRef::SliceUsize(x) => Value::SliceUsize((*x)@),
            AnyRef::VecI8(x) => Value::VecI8(x@),
            AnyRef::SliceI8(x) => Value::SliceI8((*x)@),
            AnyRef::VecI16(x) => Value::VecI16(x@),
            AnyRef::SliceI16(x) => Value::SliceI16((*x)@),
            AnyRef::VecI32(x) => Value::VecI32(x@),
            AnyRef::SliceI32(x) => Value::SliceI32((*x)@),
            AnyRef::VecI64(x) => Value::VecI64(x@),
            AnyRef::SliceI64(x) => Value::SliceI64((*x)@),
            AnyRef::VecI128(x) => Value::VecI128(x@),
            AnyRef::SliceI128(x) => Value::SliceI128((*x)@),
            AnyRef::VecIsize(x) => Value::VecIsize(x@),
            AnyRef::SliceIsize(x) => Value::SliceIsize((*x)@),
        }
    }
}

impl<'a> View for AnyMut<'a> {
    type V = Value;

    /// What the referenced field holds now.
    open spec fn view(&self) -> Value {
        match *self {
            AnyMut::Bool(x) => Value::Bool(*x),
            AnyMut::U8(x) => Value::U8(*x),
            AnyMut::U16(x) => Value::U16(*x),
            AnyMut::U32(x) => Value::U32(*x),
            AnyMut::U64(x) => Value::U64(*x),
            AnyMut::U128(x) => Value::U128(*x),
            AnyMut::Usize(x) => Value::Usize(*x),
            AnyMut::I8(x) => Value::I8(*x),
            AnyMut::I16(x) => Value::I16(*x),
            AnyMut::I32(x) => Value::I32(*x),
            AnyMut::I64(x) => Value::I64(*x),
            AnyMut::I128(x) => Value::I128(*x),
            AnyMut::Isize(x) => Value::Isize(*x),
            AnyMut::String(x) => Value::String((*x)@),
            AnyMut::Str(x) => Value::Str((*x)@),
            AnyMut::VecBool(x) => Value::VecBool((*x)@),
            AnyMut::SliceBool(x) => Value::SliceBool((*x)@),
            AnyMut::VecU8(x) => Value::VecU8((*x)@),
            AnyMut::SliceU8(x) => Value::SliceU8((*x)@),
            AnyMut::VecU16(x) => Value::VecU16((*x)@),
            AnyMut::SliceU16(x) => Value::SliceU16((*x)@),
            AnyMut::VecU32(x) => Value::VecU32((*x)@),
            AnyMut::SliceU32(x) => Value::SliceU32((*x)@),
            AnyMut::VecU64(x) => Value::VecU64((*x)@),
            AnyMut::SliceU64(x) => Value::SliceU64((*x)@),
            AnyMut::VecU128(x) => Value::VecU128((*x)@),
            AnyMut::SliceU128(x) => Value::SliceU128((*x)@),
            AnyMut::VecUsize(x) => Value::VecUsize((*x)@),
            AnyMut::SliceUsize(x) => Value::SliceUsize((*x)@),
            AnyMut::VecI8(x) => Value::VecI8((*x)@),
            AnyMut::SliceI8(x) => Value::SliceI8((*x)@),
            AnyMut::VecI16(x) => Value::VecI16((*x)@),
            AnyMut::SliceI16(x) => Value::SliceI16((*x)@),
            AnyMut::VecI32(x) => Value::VecI32((*x)@),
            AnyMut::SliceI32(x) => Value::SliceI32((*x)@),
            AnyMut::VecI64(x) => Value::VecI64((*x)@),
            AnyMut::SliceI64(x) => Value::SliceI64((*x)@),
            AnyMut::VecI128(x) => Value::VecI128((*x)@),
            AnyMut::SliceI128(x) => Value::SliceI128((*x)@),
            AnyMut::VecIsize(x) => Value::VecIsize((*x)@),
            AnyMut::SliceIsize(x) => Value::SliceIsize((*x)@),
        }
    }
}

impl<'a> AnyRef<'a> {
    /// The identity tag of the referenced field's type.
    pub fn kind(&self) -> (r: Kind)
        ensures
            r == self@.kind(),
    {
        match *self {
            AnyRef::Bool(_) => Kind::Bool,
            AnyRef::U8(_) => Kind::U8,
            AnyRef::U16(_) => Kind::U16,
            AnyRef::U32(_) => Kind::U32,
            AnyRef::U64(_) => Kind::U64,
            AnyRef::U128(_) => Kind::U128,
            AnyRef::Usize(_) => Kind::Usize,
            AnyRef::I8(_) => Kind::I8,
            AnyRef::I16(_) => Kind::I16,
            AnyRef::I32(_) => Kind::I32,
            AnyRef::I64(_) => Kind::I64,
            AnyRef::I128(_) => Kind::I128,
            AnyRef::Isize(_) => Kind::Isize,
            AnyRef::String(_) => Kind::String,
            AnyRef::Str(_) => Kind::Str,
            AnyRef::VecBool(_) => Kind::VecBool,
            AnyRef::SliceBool(_) => Kind::SliceBool,
            AnyRef::VecU8(_) => Kind::VecU8,
            AnyRef::SliceU8(_) => Kind::SliceU8,
            AnyRef::VecU16(_) => Kind::VecU16,
            AnyRef::SliceU16(_) => Kind::SliceU16,
            AnyRef::VecU32(_) => Kind::VecU32,
            AnyRef::SliceU32(_) => Kind::SliceU32,
            AnyRef::VecU64(_) => Kind::VecU64,
            AnyRef::SliceU64(_) => Kind::SliceU64,
            AnyRef::VecU128(_) => Kind::VecU128,
            AnyRef::SliceU128(_) => Kind::SliceU128,
            AnyRef::VecUsize(_) => Kind::VecUsize,
            AnyRef::SliceUsize(_) => Kind::SliceUsize,
            AnyRef::VecI8(_) => Kind::VecI8,
            AnyRef::SliceI8(_) => Kind::SliceI8,
            AnyRef::VecI16(_) => Kind::VecI16,
            AnyRef::SliceI16(_) => Kind::SliceI16,
            AnyRef::VecI32(_) => Kind::VecI32,
            AnyRef::SliceI32(_) => Kind::SliceI32,
            AnyRef::VecI64(_) => Kind::VecI64,
            AnyRef::SliceI64(_) => Kind::SliceI64,
            AnyRef::VecI128(_) => Kind::VecI128,
            AnyRef::SliceI128(_) => Kind::SliceI128,
            AnyRef::VecIsize(_) => Kind::VecIsize,
            AnyRef::SliceIsize(_) => Kind::SliceIsize,
        }
    }
}

impl<'a> AnyMut<'a> {
    /// A shared slot of the same field, borrowed from this one.
    pub fn as_shared(&self) -> (r: AnyRef<'_>)
        ensures
            r@ == self@,
    {
        match self {
            AnyMut::Bool(x) => AnyRef::Bool(&**x),
            AnyMut::U8(x) => AnyRef::U8(&**x),
            AnyMut::U16(x) => AnyRef::U16(&**x),
            AnyMut::U32(x) => AnyRef::U32(&**x),
            AnyMut::U64(x) => AnyRef::U64(&**x),
            AnyMut::U128(x) => AnyRef::U128(&**x),
            AnyMut::Usize(x) => AnyRef::Usize(&**x),
            AnyMut::I8(x) => AnyRef::I8(&**x),
            AnyMut::I16(x) => AnyRef::I16(&**x),
            AnyMut::I32(x) => AnyRef::I32(&**x),
            AnyMut::I64(x) => AnyRef::I64(&**x),
            AnyMut::I128(x) => AnyRef::I128(&**x),
            AnyMut::Isize(x) => AnyRef::Isize(&**x),
            AnyMut::String(x) => AnyRef::String(&**x),
            AnyMut::Str(x) => AnyRef::Str(&**x),
            AnyMut::VecBool(x) => AnyRef::VecBool(&**x),
            AnyMut::SliceBool(x) => AnyRef::SliceBool(&**x),
            AnyMut::VecU8(x) => AnyRef::VecU8(&**x),
            AnyMut::SliceU8(x) => AnyRef::SliceU8(&**x),
            AnyMut::VecU16(x) => AnyRef::VecU16(&**x),
            AnyMut::SliceU16(x) => AnyRef::SliceU16(&**x),
            AnyMut::VecU32(x) => AnyRef::VecU32(&**x),
            AnyMut::SliceU32(x) => AnyRef::SliceU32(&**x),
            AnyMut::VecU64(x) => AnyRef::VecU64(&**x),
            AnyMut::SliceU64(x) => AnyRef::SliceU64(&**x),
            AnyMut::VecU128(x) => AnyRef::VecU128(&**x),
            AnyMut::SliceU128(x) => AnyRef::SliceU128(&**x),
            AnyMut::VecUsize(x) => AnyRef::VecUsize(&**x),
            AnyMut::SliceUsize(x) => AnyRef::SliceUsize(&**x),
            AnyMut::VecI8(x) => AnyRef::VecI8(&**x),
            AnyMut::SliceI8(x) => AnyRef::SliceI8(&**x),
            AnyMut::VecI16(x) => AnyRef::VecI16(&**x),
            AnyMut::SliceI16(x) => AnyRef::SliceI16(&**x),
            AnyMut::VecI32(x) => AnyRef::VecI32(&**x),
            AnyMut::SliceI32(x) => AnyRef::SliceI32(&**x),
            AnyMut::VecI64(x) => AnyRef::VecI64(&**x),
            AnyMut::SliceI64(x) => AnyRef::SliceI64(&**x),
            AnyMut::VecI128(x) => AnyRef::VecI128(&**x),
            AnyMut::SliceI128(x) => AnyRef::SliceI128(&**x),
            AnyMut::VecIsize(x) => AnyRef::VecIsize(&**x),
            AnyMut::SliceIsize(x) => AnyRef::SliceIsize(&**x),
        }
    }
}

/// A type that a reflected field may have.
///
/// Each such type has an identity tag, and its values convert to and from the
/// type-erased slots without copying.
pub trait FieldType: Sized {
    /// The identity tag of this type.
    spec fn tag() -> Kind;

    /// How a field of this type holding `self` is seen.
    spec fn value_of(&self) -> Value;

    /// What a field of this type holds once emptied.
    spec fn empty_value() -> Value;

    /// A field of this type always carries this type's tag.
    proof fn lemma_tag(&self)
        ensures
            self.value_of().kind() == Self::tag(),
    ;

    /// The identity tag of this type.
    fn kind() -> (r: Kind)
        ensures
            r == Self::tag(),
    ;

    /// The type-erased shared slot of a field of this type.
    fn erase(&self) -> (r: AnyRef<'_>)
        ensures
            r@ == self.value_of(),
    ;

    /// The type-erased exclusive slot of a field of this type; what is
    /// written through it is what the field holds afterwards.
    fn erase_mut(&mut self) -> (r: AnyMut<'_>)
        ensures
            r@ == old(self).value_of(),
            final(self).value_of() == (match r {
                AnyMut::Bool(x) => Value::Bool(*final(x)),
                AnyMut::U8(x) => Value::U8(*final(x)),
                AnyMut::U16(x) => Value::U16(*final(x)),
                AnyMut::U32(x) => Value::U32(*final(x)),
                AnyMut::U64(x) => Value::U64(*final(x)),
                AnyMut::U128(x) => Value::U128(*final(x)),
                AnyMut::Usize(x) => Value::Usize(*final(x)),
                AnyMut::I8(x) => Value::I8(*final(x)),
                AnyMut::I16(x) => Value::I16(*final(x)),
                AnyMut::I32(x) => Value::I32(*final(x)),
                AnyMut::I64(x) => Value::I64(*final(x)),
                AnyMut::I128(x) => Value::I128(*final(x)),
                AnyMut::Isize(x) => Value::Isize(*final(x)),
                AnyMut::String(x) => Value::String((*final(x))@),
                AnyMut::Str(x) => Value::Str((*final(x))@),
                AnyMut::VecBool(x) => Value::VecBool((*final(x))@),
                AnyMut::SliceBool(x) => Value::SliceBool((*final(x))@),
                AnyMut::VecU8(x) => Value::VecU8((*final(x))@),
                AnyMut::SliceU8(x) => Value::SliceU8((*final(x))@),
                AnyMut::VecU16(x) => Value::VecU16((*final(x))@),
                AnyMut::SliceU16(x) => Value::SliceU16((*final(x))@),
                AnyMut::VecU32(x) => Value::VecU32((*final(x))@),
                AnyMut::SliceU32(x) => Value::SliceU32((*final(x))@),
                AnyMut::VecU64(x) => Value::VecU64((*final(x))@),
                AnyMut::SliceU64(x) => Value::SliceU64((*final(x))@),
                AnyMut::VecU128(x) => Value::VecU128((*final(x))@),
                AnyMut::SliceU128(x) => Value::SliceU128((*final(x))@),
                AnyMut::VecUsize(x) => Value::VecUsize((*final(x))@),
                AnyMut::SliceUsize(x) => Value::SliceUsize((*final(x))@),
                AnyMut::VecI8(x) => Value::VecI8((*final(x))@),
                AnyMut::SliceI8(x) => Value::SliceI8((*final(x))@),
                AnyMut::VecI16(x) => Value::VecI16((*final(x))@),
                AnyMut::SliceI16(x) => Value::SliceI16((*final(x))@),
                AnyMut::VecI32(x) => Value::VecI32((*final(x))@),
                AnyMut::SliceI32(x) => Value::SliceI32((*final(x))@),
                AnyMut::VecI64(x) => Value::VecI64((*final(x))@),
                AnyMut::SliceI64(x) => Value::SliceI64((*final(x))@),
                AnyMut::VecI128(x) => Value::VecI128((*final(x))@),
                AnyMut::SliceI128(x) => Value::SliceI128((*final(x))@),
                AnyMut::VecIsize(x) => Value::VecIsize((*final(x))@),
                AnyMut::SliceIsize(x) => Value::SliceIsize((*final(x))@),
            }),
    ;

    /// The field behind `slot`, when it has exactly this type.
    fn downcast_ref<'a>(slot: AnyRef<'a>) -> (r: Option<&'a Self>)
        ensures
            r is Some <==> slot@.kind() == Self::tag(),
            r matches Some(x) ==> x.value_of() == slot@,
    ;

    /// Exclusive access to the field behind `slot`, when it has exactly this
    /// type. What is written through it is what the slot holds afterwards,
    /// and the slot still refers to the same field: its reference ends with
    /// the same final value as before.
    fn downcast_mut<'a, 'b>(slot: &'b mut AnyMut<'a>) -> (r: Option<&'b mut Self>)
        ensures
            r is Some <==> old(slot)@.kind() == Self::tag(),
            r matches Some(x) ==> x.value_of() == old(slot)@ && (*final(slot))@ == (
            *final(x)).value_of(),
            r is None ==> (*final(slot))@ == old(slot)@,
            match (*old(slot), *final(slot)) {
                (AnyMut::Bool(x), AnyMut::Bool(y)) => *final(x) == *final(y),
                (AnyMut::U8(x), AnyMut::U8(y)) => *final(x) == *final(y),
                (AnyMut::U16(x), AnyMut::U16(y)) => *final(x) == *final(y),
                (AnyMut::U32(x), AnyMut::U32(y)) => *final(x) == *final(y),
                (AnyMut::U64(x), AnyMut::U64(y)) => *final(x) == *final(y),
                (AnyMut::U128(x), AnyMut::U128(y)) => *final(x) == *final(y),
                (AnyMut::Usize(x), AnyMut::Usize(y)) => *final(x) == *final(y),
                (AnyMut::I8(x), AnyMut::I8(y)) => *final(x) == *final(y),
                (AnyMut::I16(x), AnyMut::I16(y)) => *final(x) == *final(y),
                (AnyMut::I32(x), AnyMut::I32(y)) => *final(x) == *final(y),
                (AnyMut::I64(x), AnyMut::I64(y)) => *final(x) == *final(y),
                (AnyMut::I128(x), AnyMut::I128(y)) => *final(x) == *final(y),
                (AnyMut::Isize(x), AnyMut::Isize(y)) => *final(x) == *final(y),
                (AnyMut::String(x), AnyMut::String(y)) => *final(x) == *final(y),
                (AnyMut::Str(x), AnyMut::Str(y)) => *final(x) == *final(y),
                (AnyMut::VecBool(x), AnyMut::VecBool(y)) => *final(x) == *final(y),
                (AnyMut::SliceBool(x), AnyMut::SliceBool(y)) => *final(x) == *final(y),
                (AnyMut::VecU8(x), AnyMut::VecU8(y)) => *final(x) == *final(y),
                (AnyMut::SliceU8(x), AnyMut::SliceU8(y)) => *final(x) == *final(y),
                (AnyMut::VecU16(x), AnyMut::VecU16(y)) => *final(x) == *final(y),
                (AnyMut::SliceU16(x), AnyMut::SliceU16(y)) => *final(x) == *final(y),
                (AnyMut::VecU32(x), AnyMut::VecU32(y)) => *final(x) == *final(y),
                (AnyMut::SliceU32(x), AnyMut::SliceU32(y)) => *final(x) == *final(y),
                (AnyMut::VecU64(x), AnyMut::VecU64(y)) => *final(x) == *final(y),
                (AnyMut::SliceU64(x), AnyMut::SliceU64(y)) => *final(x) == *final(y),
                (AnyMut::VecU128(x), AnyMut::VecU128(y)) => *final(x) == *final(y),
                (AnyMut::SliceU128(x), AnyMut::SliceU128(y)) => *final(x) == *final(y),
                (AnyMut::VecUsize(x), AnyMut::VecUsize(y)) => *final(x) == *final(y),
                (AnyMut::SliceUsize(x), AnyMut::SliceUsize(y)) => *final(x) == *final(y),
                (AnyMut::VecI8(x), AnyMut::VecI8(y)) => *final(x) == *final(y),
                (AnyMut::SliceI8(x), AnyMut::SliceI8(y)) => *final(x) == *final(y),
                (AnyMut::VecI16(x), AnyMut::VecI16(y)) => *final(x) == *final(y),
                (AnyMut::SliceI16(x), AnyMut::SliceI16(y)) => *final(x) == *final(y),
                (AnyMut::VecI32(x), AnyMut::VecI32(y)) => *final(x) == *final(y),
                (AnyMut::SliceI32(x), AnyMut::SliceI32(y)) => *final(x) == *final(y),
                (AnyMut::VecI64(x), AnyMut::VecI64(y)) => *final(x) == *final(y),
                (AnyMut::SliceI64(x), AnyMut::SliceI64(y)) => *final(x) == *final(y),
                (AnyMut::VecI128(x), AnyMut::VecI128(y)) => *final(x) == *final(y),
                (AnyMut::SliceI128(x), AnyMut::SliceI128(y)) => *final(x) == *final(y),
                (AnyMut::VecIsize(x), AnyMut::VecIsize(y)) => *final(x) == *final(y),
                (AnyMut::SliceIsize(x), AnyMut::SliceIsize(y)) => *final(x) == *final(y),
                _ => false,
            },
    ;

    /// The empty value of this type.
    fn make_empty() -> (r: Self)
        ensures
            r.value_of() == Self::empty_value(),
    ;
}

/// An element type of the sequences a field may hold, as an owned vector or
/// as a borrowed slice.
pub trait Element: Sized {
    /// The identity tag of a vector of this type.
    spec fn vec_tag() -> Kind;

    /// The identity tag of a slice of this type.
    spec fn slice_tag() -> Kind;

    /// The elements held, when a field holds a vector or a slice of this type.
    spec fn elements(v: Value) -> Option<Seq<Self>>;

    /// How a field holding a vector of these elements is seen.
    spec fn vec_value(s: Seq<Self>) -> Value;

    /// The identity tag of a vector of this type.
    fn vec_kind() -> (r: Kind)
        ensures
            r == Self::vec_tag(),
    ;

    /// The identity tag of a slice of this type.
    fn slice_kind() -> (r: Kind)
        ensures
            r == Self::slice_tag(),
    ;

    /// The elements behind `slot` as a slice, when it holds a vector or a
    /// slice of this type.
    fn slice_in<'a>(slot: AnyRef<'a>) -> (r: Option<&'a [Self]>)
        ensures
            r is Some <==> Self::elements(slot@) is Some,
            r matches Some(s) ==> Self::elements(slot@) == Some(s@),
    ;

    /// Exclusive access to the vector behind `slot`, when it holds a vector of
    /// this type.
    fn vec_in_mut<'a, 'b>(slot: &'b mut AnyMut<'a>) -> (r: Option<&'b mut Vec<Self>>)
        ensures
            r is Some <==> old(slot)@.kind() == Self::vec_tag(),
            r matches Some(x) ==> Self::vec_value(x@) == old(slot)@ && (*final(slot))@
                == Self::vec_value((*final(x))@),
            r is None ==> (*final(slot))@ == old(slot)@,
    ;
}

} // verus!
