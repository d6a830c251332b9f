//! The element types of the sequences a field may hold.
use vstd::prelude::*;

use crate::slot::{AnyMut, AnyRef, Element, FieldType};
use crate::value::{Kind, Value};

verus! {

impl Element for u8 {
    open spec fn vec_tag() -> Kind {
        Kind::VecU8
    }

    open spec fn slice_tag() -> Kind {
        Kind::SliceU8
    }

    open spec fn elements(v: Value) -> Option<Seq<u8>> {
        match v {
            Value::VecU8(s) => Some(s),
            Value::SliceU8(s) => Some(s),
            _ => None,
        }
    }

    open spec fn vec_value(s: Seq<u8>) -> Value {
        Value::VecU8(s)
    }

    fn vec_kind() -> Kind {
        Kind::VecU8
    }

    fn slice_kind() -> Kind {
        Kind::SliceU8
    }

    fn slice_in<'a>(slot: AnyRef<'a>) -> Option<&'a [u8]> {
        match slot {
            AnyRef::SliceU8(x) => Some(*x),
            AnyRef::VecU8(x) => Some(x.as_slice()),
            _ => None,
        }
    }

    fn vec_in_mut<'a, 'b>(slot: &'b mut AnyMut<'a>) -> Option<&'b mut Vec<u8>> {
        <Vec<u8> as FieldType>::downcast_mut(slot)
    }
}

impl Element for bool {
    open spec fn vec_tag() -> Kind {
        Kind::VecBool
    }

    open spec fn slice_tag() -> Kind {
        Kind::SliceBool
    }

    open spec fn elements(v: Value) -> Option<Seq<bool>> {
        match v {
            Value::VecBool(s) => Some(s),
            Value::SliceBool(s) => Some(s),
            _ => None,
        }
    }

    open spec fn vec_value(s: Seq<bool>) -> Value {
        Value::VecBool(s)
    }

    fn vec_kind() -> Kind {
        Kind::VecBool
    }

    fn slice_kind() -> Kind {
        Kind::SliceBool
    }

    fn slice_in<'a>(slot: AnyRef<'a>) -> Option<&'a [bool]> {
        match slot {
            AnyRef::SliceBool(x) => Some(*x),
            AnyRef::VecBool(x) => Some(x.as_slice()),
            _ => None,
        }
    }

    fn vec_in_mut<'a, 'b>(slot: &'b mut AnyMut<'a>) -> Option<&'b mut Vec<bool>> {
        <Vec<bool> as FieldType>::downcast_mut(slot)
    }
}

impl Element for u16 {
    open spec fn vec_tag() -> Kind {
        Kind::VecU16
    }

    open spec fn slice_tag() -> Kind {
        Kind::SliceU16
    }

    open spec fn elements(v: Value) -> Option<Seq<u16>> {
        match v {
            Value::VecU16(s) => Some(s),
            Value::SliceU16(s) => Some(s),
            _ => None,
        }
    }

    open spec fn vec_value(s: Seq<u16>) -> Value {
        Value::VecU16(s)
    }

    fn vec_kind() -> Kind {
        Kind::VecU16
    }

    fn slice_kind() -> Kind {
        Kind::SliceU16
    }

    fn slice_in<'a>(slot: AnyRef<'a>) -> Option<&'a [u16]> {
        match slot {
            AnyRef::SliceU16(x) => Some(*x),
            AnyRef::VecU16(x) => Some(x.as_slice()),
            _ => None,
        }
    }

    fn vec_in_mut<'a, 'b>(slot: &'b mut AnyMut<'a>) -> Option<&'b mut Vec<u16>> {
        <Vec<u16> as FieldType>::downcast_mut(slot)
    }
}

impl Element for u32 {
    open spec fn vec_tag() -> Kind {
        Kind::VecU32
    }

    open spec fn slice_tag() -> Kind {
        Kind::SliceU32
    }

    open spec fn elements(v: Value) -> Option<Seq<u32>> {
        match v {
            Value::VecU32(s) => Some(s),
            Value::SliceU32(s) => Some(s),
            _ => None,
        }
    }

    open spec fn vec_value(s: Seq<u32>) -> Value {
        Value::VecU32(s)
    }

    fn vec_kind() -> Kind {
        Kind::VecU32
    }

    fn slice_kind() -> Kind {
        Kind::SliceU32
    }

    fn slice_in<'a>(slot: AnyRef<'a>) -> Option<&'a [u32]> {
        match slot {
            AnyRef::SliceU32(x) => Some(*x),
            AnyRef::VecU32(x) => Some(x.as_slice()),
            _ => None,
        }
    }

    fn vec_in_mut<'a, 'b>(slot: &'b mut AnyMut<'a>) -> Option<&'b mut Vec<u32>> {
        <Vec<u32> as FieldType>::downcast_mut(slot)
    }
}

impl Element for u64 {
    open spec fn vec_tag() -> Kind {
        Kind::VecU64
    }

    open spec fn slice_tag() -> Kind {
        Kind::SliceU64
    }

    open spec fn elements(v: Value) -> Option<Seq<u64>> {
        match v {
            Value::VecU64(s) => Some(s),
            Value::SliceU64(s) => Some(s),
            _ => None,
        }
    }

    open spec fn vec_value(s: Seq<u64>) -> Value {
        Value::VecU64(s)
    }

    fn vec_kind() -> Kind {
        Kind::VecU64
    }

    fn slice_kind() -> Kind {
        Kind::SliceU64
    }

    fn slice_in<'a>(slot: AnyRef<'a>) -> Option<&'a [u64]> {
        match slot {
            AnyRef::SliceU64(x) => Some(*x),
            AnyRef::VecU64(x) => Some(x.as_slice()),
            _ => None,
        }
    }

    fn vec_in_mut<'a, 'b>(slot: &'b mut AnyMut<'a>) -> Option<&'b mut Vec<u64>> {
        <Vec<u64> as FieldType>::downcast_mut(slot)
    }
}

impl Element for u128 {
    open spec fn vec_tag() -> Kind {
        Kind::VecU128
    }

    open spec fn slice_tag() -> Kind {
        Kind::SliceU128
    }

    open spec fn elements(v: Value) -> Option<Seq<u128>> {
        match v {
            Value::VecU128(s) => Some(s),
            Value::SliceU128(s) => Some(s),
            _ => None,
        }
    }

    open spec fn vec_value(s: Seq<u128>) -> Value {
        Value::VecU128(s)
    }

    fn vec_kind() -> Kind {
        Kind::VecU128
    }

    fn slice_kind() -> Kind {
        Kind::SliceU128
    }

    fn slice_in<'a>(slot: AnyRef<'a>) -> Option<&'a [u128]> {
        match slot {
            AnyRef::SliceU128(x) => Some(*x),
            AnyRef::VecU128(x) => Some(x.as_slice()),
            _ => None,
        }
    }

    fn vec_in_mut<'a, 'b>(slot: &'b mut AnyMut<'a>) -> Option<&'b mut Vec<u128>> {
        <Vec<u128> as FieldType>::downcast_mut(slot)
    }
}

impl Element for usize {
    open spec fn vec_tag() -> Kind {
        Kind::VecUsize
    }

    open spec fn slice_tag() -> Kind {
        Kind::SliceUsize
    }

    open spec fn elements(v: Value) -> Option<Seq<usize>> {
        match v {
            Value::VecUsize(s) => Some(s),
            Value::SliceUsize(s) => Some(s),
            _ => None,
        }
    }

    open spec fn vec_value(s: Seq<usize>) -> Value {
        Value::VecUsize(s)
    }

    fn vec_kind() -> Kind {
        Kind::VecUsize
    }

    fn slice_kind() -> Kind {
        Kind::SliceUsize
    }

    fn slice_in<'a>(slot: AnyRef<'a>) -> Option<&'a [usize]> {
        match slot {
            AnyRef::SliceUsize(x) => Some(*x),
            AnyRef::VecUsize(x) => Some(x.as_slice()),
            _ => None,
        }
    }

    fn vec_in_mut<'a, 'b>(slot: &'b mut AnyMut<'a>) -> Option<&'b mut Vec<usize>> {
        <Vec<usize> as FieldType>::downcast_mut(slot)
    }
}

impl Element for i8 {
    open spec fn vec_tag() -> Kind {
        Kind::VecI8
    }

    open spec fn slice_tag() -> Kind {
        Kind::SliceI8
    }

    open spec fn elements(v: Value) -> Option<Seq<i8>> {
        match v {
            Value::VecI8(s) => Some(s),
            Value::SliceI8(s) => Some(s),
            _ => None,
        }
    }

    open spec fn vec_value(s: Seq<i8>) -> Value {
        Value::VecI8(s)
    }

    fn vec_kind() -> Kind {
        Kind::VecI8
    }

    fn slice_kind() -> Kind {
        Kind::SliceI8
    }

    fn slice_in<'a>(slot: AnyRef<'a>) -> Option<&'a [i8]> {
        match slot {
            AnyRef::SliceI8(x) => Some(*x),
            AnyRef::VecI8(x) => Some(x.as_slice()),
            _ => None,
        }
    }

    fn vec_in_mut<'a, 'b>(slot: &'b mut AnyMut<'a>) -> Option<&'b mut Vec<i8>> {
        <Vec<i8> as FieldType>::downcast_mut(slot)
    }
}

impl Element for i16 {
    open spec fn vec_tag() -> Kind {
        Kind::VecI16
    }

    open spec fn slice_tag() -> Kind {
        Kind::SliceI16
    }

    open spec fn elements(v: Value) -> Option<Seq<i16>> {
        match v {
            Value::VecI16(s) => Some(s),
            Value::SliceI16(s) => Some(s),
            _ => None,
        }
    }

    open spec fn vec_value(s: Seq<i16>) -> Value {
        Value::VecI16(s)
    }

    fn vec_kind() -> Kind {
        Kind::VecI16
    }

    fn slice_kind() -> Kind {
        Kind::SliceI16
    }

    fn slice_in<'a>(slot: AnyRef<'a>) -> Option<&'a [i16]> {
        match slot {
            AnyRef::SliceI16(x) => Some(*x),
            AnyRef::VecI16(x) => Some(x.as_slice()),
            _ => None,
        }
    }

    fn vec_in_mut<'a, 'b>(slot: &'b mut AnyMut<'a>) -> Option<&'b mut Vec<i16>> {
        <Vec<i16> as FieldType>::downcast_mut(slot)
    }
}

impl Element for i32 {
    open spec fn vec_tag() -> Kind {
        Kind::VecI32
    }

    open spec fn slice_tag() -> Kind {
        Kind::SliceI32
    }

    open spec fn elements(v: Value) -> Option<Seq<i32>> {
        match v {
            Value::VecI32(s) => Some(s),
            Value::SliceI32(s) => Some(s),
            _ => None,
        }
    }

    open spec fn vec_value(s: Seq<i32>) -> Value {
        Value::VecI32(s)
    }

    fn vec_kind() -> Kind {
        Kind::VecI32
    }

    fn slice_kind() -> Kind {
        Kind::SliceI32
    }

    fn slice_in<'a>(slot: AnyRef<'a>) -> Option<&'a [i32]> {
        match slot {
            AnyRef::SliceI32(x) => Some(*x),
            AnyRef::VecI32(x) => Some(x.as_slice()),
            _ => None,
        }
    }

    fn vec_in_mut<'a, 'b>(slot: &'b mut AnyMut<'a>) -> Option<&'b mut Vec<i32>> {
        <Vec<i32> as FieldType>::downcast_mut(slot)
    }
}

impl Element for i64 {
    open spec fn vec_tag() -> Kind {
        Kind::VecI64
    }

    open spec fn slice_tag() -> Kind {
        Kind::SliceI64
    }

    open spec fn elements(v: Value) -> Option<Seq<i64>> {
        match v {
            Value::VecI64(s) => Some(s),
            Value::SliceI64(s) => Some(s),
            _ => None,
        }
    }

    open spec fn vec_value(s: Seq<i64>) -> Value {
        Value::VecI64(s)
    }

    fn vec_kind() -> Kind {
        Kind::VecI64
    }

    fn slice_kind() -> Kind {
        Kind::SliceI64
    }

    fn slice_in<'a>(slot: AnyRef<'a>) -> Option<&'a [i64]> {
        match slot {
            AnyRef::SliceI64(x) => Some(*x),
            AnyRef::VecI64(x) => Some(x.as_slice()),
            _ => None,
        }
    }

    fn vec_in_mut<'a, 'b>(slot: &'b mut AnyMut<'a>) -> Option<&'b mut Vec<i64>> {
        <Vec<i64> as FieldType>::downcast_mut(slot)
    }
}

impl Element for i128 {
    open spec fn vec_tag() -> Kind {
        Kind::VecI128
    }

    open spec fn slice_tag() -> Kind {
        Kind::SliceI128
    }

    open spec fn elements(v: Value) -> Option<Seq<i128>> {
        match v {
            Value::VecI128(s) => Some(s),
            Value::SliceI128(s) => Some(s),
            _ => None,
        }
    }

    open spec fn vec_value(s: Seq<i128>) -> Value {
        Value::VecI128(s)
    }

    fn vec_kind() -> Kind {
        Kind::VecI128
    }

    fn slice_kind() -> Kind {
        Kind::SliceI128
    }

    fn slice_in<'a>(slot: AnyRef<'a>) -> Option<&'a [i128]> {
        match slot {
            AnyRef::SliceI128(x) => Some(*x),
            AnyRef::VecI128(x) => Some(x.as_slice()),
            _ => None,
        }
    }

    fn vec_in_mut<'a, 'b>(slot: &'b mut AnyMut<'a>) -> Option<&'b mut Vec<i128>> {
        <Vec<i128> as FieldType>::downcast_mut(slot)
    }
}

impl Element for isize {
    open spec fn vec_tag() -> Kind {
        Kind::VecIsize
    }

    open spec fn slice_tag() -> Kind {
        Kind::SliceIsize
    }

    open spec fn elements(v: Value) -> Option<Seq<isize>> {
        match v {
            Value::VecIsize(s) => Some(s),
            Value::SliceIsize(s) => Some(s),
            _ => None,
        }
    }

    open spec fn vec_value(s: Seq<isize>) -> Value {
        Value::VecIsize(s)
    }

    fn vec_kind() -> Kind {
        Kind::VecIsize
    }

    fn slice_kind() -> Kind {
        Kind::SliceIsize
    }

    fn slice_in<'a>(slot: AnyRef<'a>) -> Option<&'a [isize]> {
        match slot {
            AnyRef::SliceIsize(x) => Some(*x),
            AnyRef::VecIsize(x) => Some(x.as_slice()),
            _ => None,
        }
    }

    fn vec_in_mut<'a, 'b>(slot: &'b mut AnyMut<'a>) -> Option<&'b mut Vec<isize>> {
        <Vec<isize> as FieldType>::downcast_mut(slot)
    }
}

} // verus!
