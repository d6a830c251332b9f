//! The field types: booleans, integers, strings, and vectors and slices of
//! booleans and integers.
use vstd::prelude::*;

use crate::slot::{AnyMut, AnyRef, FieldType};
use crate::value::{Kind, Value};

verus! {

impl FieldType for u8 {
    open spec fn tag() -> Kind {
        Kind::U8
    }

    open spec fn value_of(&self) -> Value {
        Value::U8(*self)
    }

    open spec fn empty_value() -> Value {
        Value::U8(0)
    }

    proof fn lemma_tag(&self) {
    }

    fn kind() -> Kind {
        Kind::U8
    }

    fn erase(&self) -> AnyRef<'_> {
        AnyRef::U8(self)
    }

    fn erase_mut(&mut self) -> AnyMut<'_> {
        AnyMut::U8(self)
    }

    fn downcast_ref<'a>(slot: AnyRef<'a>) -> Option<&'a u8> {
        match slot {
            AnyRef::U8(x) => Some(x),
            _ => None,
        }
    }

    fn downcast_mut<'a, 'b>(slot: &'b mut AnyMut<'a>) -> Option<&'b mut u8> {
        match slot {
            AnyMut::U8(x) => Some(&mut **x),
            _ => None,
        }
    }

    fn make_empty() -> u8 {
        0
    }
}

impl FieldType for bool {
    open spec fn tag() -> Kind {
        Kind::Bool
    }

    open spec fn value_of(&self) -> Value {
        Value::Bool(*self)
    }

    open spec fn empty_value() -> Value {
        Value::Bool(false)
    }

    proof fn lemma_tag(&self) {
    }

    fn kind() -> Kind {
        Kind::Bool
    }

    fn erase(&self) -> AnyRef<'_> {
        AnyRef::Bool(self)
    }

    fn erase_mut(&mut self) -> AnyMut<'_> {
        AnyMut::Bool(self)
    }

    fn downcast_ref<'a>(slot: AnyRef<'a>) -> Option<&'a bool> {
        match slot {
            AnyRef::Bool(x) => Some(x),
            _ => None,
        }
    }

    fn downcast_mut<'a, 'b>(slot: &'b mut AnyMut<'a>) -> Option<&'b mut bool> {
        match slot {
            AnyMut::Bool(x) => Some(&mut **x),
            _ => None,
        }
    }

    fn make_empty() -> bool {
        false
    }
}

impl FieldType for u16 {
    open spec fn tag() -> Kind {
        Kind::U16
    }

    open spec fn value_of(&self) -> Value {
        Value::U16(*self)
    }

    open spec fn empty_value() -> Value {
        Value::U16(0)
    }

    proof fn lemma_tag(&self) {
    }

    fn kind() -> Kind {
        Kind::U16
    }

    fn erase(&self) -> AnyRef<'_> {
        AnyRef::U16(self)
    }

    fn erase_mut(&mut self) -> AnyMut<'_> {
        AnyMut::U16(self)
    }

    fn downcast_ref<'a>(slot: AnyRef<'a>) -> Option<&'a u16> {
        match slot {
            AnyRef::U16(x) => Some(x),
            _ => None,
        }
    }

    fn downcast_mut<'a, 'b>(slot: &'b mut AnyMut<'a>) -> Option<&'b mut u16> {
        match slot {
            AnyMut::U16(x) => Some(&mut **x),
            _ => None,
        }
    }

    fn make_empty() -> u16 {
        0
    }
}

impl FieldType for u32 {
    open spec fn tag() -> Kind {
        Kind::U32
    }

    open spec fn value_of(&self) -> Value {
        Value::U32(*self)
    }

    open spec fn empty_value() -> Value {
        Value::U32(0)
    }

    proof fn lemma_tag(&self) {
    }

    fn kind() -> Kind {
        Kind::U32
    }

    fn erase(&self) -> AnyRef<'_> {
        AnyRef::U32(self)
    }

    fn erase_mut(&mut self) -> AnyMut<'_> {
        AnyMut::U32(self)
    }

    fn downcast_ref<'a>(slot: AnyRef<'a>) -> Option<&'a u32> {
        match slot {
            AnyRef::U32(x) => Some(x),
            _ => None,
        }
    }

    fn downcast_mut<'a, 'b>(slot: &'b mut AnyMut<'a>) -> Option<&'b mut u32> {
        match slot {
            AnyMut::U32(x) => Some(&mut **x),
            _ => None,
        }
    }

    fn make_empty() -> u32 {
        0
    }
}

impl FieldType for u64 {
    open spec fn tag() -> Kind {
        Kind::U64
    }

    open spec fn value_of(&self) -> Value {
        Value::U64(*self)
    }

    open spec fn empty_value() -> Value {
        Value::U64(0)
    }

    proof fn lemma_tag(&self) {
    }

    fn kind() -> Kind {
        Kind::U64
    }

    fn erase(&self) -> AnyRef<'_> {
        AnyRef::U64(self)
    }

    fn erase_mut(&mut self) -> AnyMut<'_> {
        AnyMut::U64(self)
    }

    fn downcast_ref<'a>(slot: AnyRef<'a>) -> Option<&'a u64> {
        match slot {
            AnyRef::U64(x) => Some(x),
            _ => None,
        }
    }

    fn downcast_mut<'a, 'b>(slot: &'b mut AnyMut<'a>) -> Option<&'b mut u64> {
        match slot {
            AnyMut::U64(x) => Some(&mut **x),
            _ => None,
        }
    }

    fn make_empty() -> u64 {
        0
    }
}

impl FieldType for u128 {
    open spec fn tag() -> Kind {
        Kind::U128
    }

    open spec fn value_of(&self) -> Value {
        Value::U128(*self)
    }

    open spec fn empty_value() -> Value {
        Value::U128(0)
    }

    proof fn lemma_tag(&self) {
    }

    fn kind() -> Kind {
        Kind::U128
    }

    fn erase(&self) -> AnyRef<'_> {
        AnyRef::U128(self)
    }

    fn erase_mut(&mut self) -> AnyMut<'_> {
        AnyMut::U128(self)
    }

    fn downcast_ref<'a>(slot: AnyRef<'a>) -> Option<&'a u128> {
        match slot {
            AnyRef::U128(x) => Some(x),
            _ => None,
        }
    }

    fn downcast_mut<'a, 'b>(slot: &'b mut AnyMut<'a>) -> Option<&'b mut u128> {
        match slot {
            AnyMut::U128(x) => Some(&mut **x),
            _ => None,
        }
    }

    fn make_empty() -> u128 {
        0
    }
}

impl FieldType for usize {
    open spec fn tag() -> Kind {
        Kind::Usize
    }

    open spec fn value_of(&self) -> Value {
        Value::Usize(*self)
    }

    open spec fn empty_value() -> Value {
        Value::Usize(0)
    }

    proof fn lemma_tag(&self) {
    }

    fn kind() -> Kind {
        Kind::Usize
    }

    fn erase(&self) -> AnyRef<'_> {
        AnyRef::Usize(self)
    }

    fn erase_mut(&mut self) -> AnyMut<'_> {
        AnyMut::Usize(self)
    }

    fn downcast_ref<'a>(slot: AnyRef<'a>) -> Option<&'a usize> {
        match slot {
            AnyRef::Usize(x) => Some(x),
            _ => None,
        }
    }

    fn downcast_mut<'a, 'b>(slot: &'b mut AnyMut<'a>) -> Option<&'b mut usize> {
        match slot {
            AnyMut::Usize(x) => Some(&mut **x),
            _ => None,
        }
    }

    fn make_empty() -> usize {
        0
    }
}

impl FieldType for i8 {
    open spec fn tag() -> Kind {
        Kind::I8
    }

    open spec fn value_of(&self) -> Value {
        Value::I8(*self)
    }

    open spec fn empty_value() -> Value {
        Value::I8(0)
    }

    proof fn lemma_tag(&self) {
    }

    fn kind() -> Kind {
        Kind::I8
    }

    fn erase(&self) -> AnyRef<'_> {
        AnyRef::I8(self)
    }

    fn erase_mut(&mut self) -> AnyMut<'_> {
        AnyMut::I8(self)
    }

    fn downcast_ref<'a>(slot: AnyRef<'a>) -> Option<&'a i8> {
        match slot {
            AnyRef::I8(x) => Some(x),
            _ => None,
        }
    }

    fn downcast_mut<'a, 'b>(slot: &'b mut AnyMut<'a>) -> Option<&'b mut i8> {
        match slot {
            AnyMut::I8(x) => Some(&mut **x),
            _ => None,
        }
    }

    fn make_empty() -> i8 {
        0
    }
}

impl FieldType for i16 {
    open spec fn tag() -> Kind {
        Kind::I16
    }

    open spec fn value_of(&self) -> Value {
        Value::I16(*self)
    }

    open spec fn empty_value() -> Value {
        Value::I16(0)
    }

    proof fn lemma_tag(&self) {
    }

    fn kind() -> Kind {
        Kind::I16
    }

    fn erase(&self) -> AnyRef<'_> {
        AnyRef::I16(self)
    }

    fn erase_mut(&mut self) -> AnyMut<'_> {
        AnyMut::I16(self)
    }

    fn downcast_ref<'a>(slot: AnyRef<'a>) -> Option<&'a i16> {
        match slot {
            AnyRef::I16(x) => Some(x),
            _ => None,
        }
    }

    fn downcast_mut<'a, 'b>(slot: &'b mut AnyMut<'a>) -> Option<&'b mut i16> {
        match slot {
            AnyMut::I16(x) => Some(&mut **x),
            _ => None,
        }
    }

    fn make_empty() -> i16 {
        0
    }
}

impl FieldType for i32 {
    open spec fn tag() -> Kind {
        Kind::I32
    }

    open spec fn value_of(&self) -> Value {
        Value::I32(*self)
    }

    open spec fn empty_value() -> Value {
        Value::I32(0)
    }

    proof fn lemma_tag(&self) {
    }

    fn kind() -> Kind {
        Kind::I32
    }

    fn erase(&self) -> AnyRef<'_> {
        AnyRef::I32(self)
    }

    fn erase_mut(&mut self) -> AnyMut<'_> {
        AnyMut::I32(self)
    }

    fn downcast_ref<'a>(slot: AnyRef<'a>) -> Option<&'a i32> {
        match slot {
            AnyRef::I32(x) => Some(x),
            _ => None,
        }
    }

    fn downcast_mut<'a, 'b>(slot: &'b mut AnyMut<'a>) -> Option<&'b mut i32> {
        match slot {
            AnyMut::I32(x) => Some(&mut **x),
            _ => None,
        }
    }

    fn make_empty() -> i32 {
        0
    }
}

impl FieldType for i64 {
    open spec fn tag() -> Kind {
        Kind::I64
    }

    open spec fn value_of(&self) -> Value {
        Value::I64(*self)
    }

    open spec fn empty_value() -> Value {
        Value::I64(0)
    }

    proof fn lemma_tag(&self) {
    }

    fn kind() -> Kind {
        Kind::I64
    }

    fn erase(&self) -> AnyRef<'_> {
        AnyRef::I64(self)
    }

    fn erase_mut(&mut self) -> AnyMut<'_> {
        AnyMut::I64(self)
    }

    fn downcast_ref<'a>(slot: AnyRef<'a>) -> Option<&'a i64> {
        match slot {
            AnyRef::I64(x) => Some(x),
            _ => None,
        }
    }

    fn downcast_mut<'a, 'b>(slot: &'b mut AnyMut<'a>) -> Option<&'b mut i64> {
        match slot {
            AnyMut::I64(x) => Some(&mut **x),
            _ => None,
        }
    }

    fn make_empty() -> i64 {
        0
    }
}

impl FieldType for i128 {
    open spec fn tag() -> Kind {
        Kind::I128
    }

    open spec fn value_of(&self) -> Value {
        Value::I128(*self)
    }

    open spec fn empty_value() -> Value {
        Value::I128(0)
    }

    proof fn lemma_tag(&self) {
    }

    fn kind() -> Kind {
        Kind::I128
    }

    fn erase(&self) -> AnyRef<'_> {
        AnyRef::I128(self)
    }

    fn erase_mut(&mut self) -> AnyMut<'_> {
        AnyMut::I128(self)
    }

    fn downcast_ref<'a>(slot: AnyRef<'a>) -> Option<&'a i128> {
        match slot {
            AnyRef::I128(x) => Some(x),
            _ => None,
        }
    }

    fn downcast_mut<'a, 'b>(slot: &'b mut AnyMut<'a>) -> Option<&'b mut i128> {
        match slot {
            AnyMut::I128(x) => Some(&mut **x),
            _ => None,
        }
    }

    fn make_empty() -> i128 {
        0
    }
}

impl FieldType for isize {
    open spec fn tag() -> Kind {
        Kind::Isize
    }

    open spec fn value_of(&self) -> Value {
        Value::Isize(*self)
    }

    open spec fn empty_value() -> Value {
        Value::Isize(0)
    }

    proof fn lemma_tag(&self) {
    }

    fn kind() -> Kind {
        Kind::Isize
    }

    fn erase(&self) -> AnyRef<'_> {
        AnyRef::Isize(self)
    }

    fn erase_mut(&mut self) -> AnyMut<'_> {
        AnyMut::Isize(self)
    }

    fn downcast_ref<'a>(slot: AnyRef<'a>) -> Option<&'a isize> {
        match slot {
            AnyRef::Isize(x) => Some(x),
            _ => None,
        }
    }

    fn downcast_mut<'a, 'b>(slot: &'b mut AnyMut<'a>) -> Option<&'b mut isize> {
        match slot {
            AnyMut::Isize(x) => Some(&mut **x),
            _ => None,
        }
    }

    fn make_empty() -> isize {
        0
    }
}

impl FieldType for String {
    open spec fn tag() -> Kind {
        Kind::String
    }

    open spec fn value_of(&self) -> Value {
        Value::String(self@)
    }

    open spec fn empty_value() -> Value {
        Value::String(Seq::empty())
    }

    proof fn lemma_tag(&self) {
    }

    fn kind() -> Kind {
        Kind::String
    }

    fn erase(&self) -> AnyRef<'_> {
        AnyRef::String(self)
    }

    fn erase_mut(&mut self) -> AnyMut<'_> {
        AnyMut::String(self)
    }

    fn downcast_ref<'a>(slot: AnyRef<'a>) -> Option<&'a String> {
        match slot {
            AnyRef::String(x) => Some(x),
            _ => None,
        }
    }

    fn downcast_mut<'a, 'b>(slot: &'b mut AnyMut<'a>) -> Option<&'b mut String> {
        match slot {
            AnyMut::String(x) => Some(&mut **x),
            _ => None,
        }
    }

    fn make_empty() -> String {
        String::new()
    }
}

impl FieldType for &'static str {
    open spec fn tag() -> Kind {
        Kind::Str
    }

    open spec fn value_of(&self) -> Value {
        Value::Str((*self)@)
    }

    open spec fn empty_value() -> Value {
        Value::Str(Seq::empty())
    }

    proof fn lemma_tag(&self) {
    }

    fn kind() -> Kind {
        Kind::Str
    }

    fn erase(&self) -> AnyRef<'_> {
        AnyRef::Str(self)
    }

    fn erase_mut(&mut self) -> AnyMut<'_> {
        AnyMut::Str(self)
    }

    fn downcast_ref<'a>(slot: AnyRef<'a>) -> Option<&'a &'static str> {
        match slot {
            AnyRef::Str(x) => Some(x),
            _ => None,
        }
    }

    fn downcast_mut<'a, 'b>(slot: &'b mut AnyMut<'a>) -> Option<&'b mut &'static str> {
        match slot {
            AnyMut::Str(x) => Some(&mut **x),
            _ => None,
        }
    }

    fn make_empty() -> &'static str {
        proof {
            reveal_strlit("");
        }
        let e: &'static str = "";
        assert(e@ =~= Seq::<char>::empty());
        e
    }
}

impl FieldType for Vec<u8> {
    open spec fn tag() -> Kind {
        Kind::VecU8
    }

    open spec fn value_of(&self) -> Value {
        Value::VecU8(self@)
    }

    open spec fn empty_value() -> Value {
        Value::VecU8(Seq::empty())
    }

    proof fn lemma_tag(&self) {
    }

    fn kind() -> Kind {
        Kind::VecU8
    }

    fn erase(&self) -> AnyRef<'_> {
        AnyRef::VecU8(self)
    }

    fn erase_mut(&mut self) -> AnyMut<'_> {
        AnyMut::VecU8(self)
    }

    fn downcast_ref<'a>(slot: AnyRef<'a>) -> Option<&'a Vec<u8>> {
        match slot {
            AnyRef::VecU8(x) => Some(x),
            _ => None,
        }
    }

    fn downcast_mut<'a, 'b>(slot: &'b mut AnyMut<'a>) -> Option<&'b mut Vec<u8>> {
        match slot {
            AnyMut::VecU8(x) => Some(&mut **x),
            _ => None,
        }
    }

    fn make_empty() -> Vec<u8> {
        Vec::new()
    }
}

impl FieldType for Vec<bool> {
    open spec fn tag() -> Kind {
        Kind::VecBool
    }

    open spec fn value_of(&self) -> Value {
        Value::VecBool(self@)
    }

    open spec fn empty_value() -> Value {
        Value::VecBool(Seq::empty())
    }

    proof fn lemma_tag(&self) {
    }

    fn kind() -> Kind {
        Kind::VecBool
    }

    fn erase(&self) -> AnyRef<'_> {
        AnyRef::VecBool(self)
    }

    fn erase_mut(&mut self) -> AnyMut<'_> {
        AnyMut::VecBool(self)
    }

    fn downcast_ref<'a>(slot: AnyRef<'a>) -> Option<&'a Vec<bool>> {
        match slot {
            AnyRef::VecBool(x) => Some(x),
            _ => None,
        }
    }

    fn downcast_mut<'a, 'b>(slot: &'b mut AnyMut<'a>) -> Option<&'b mut Vec<bool>> {
        match slot {
            AnyMut::VecBool(x) => Some(&mut **x),
            _ => None,
        }
    }

    fn make_empty() -> Vec<bool> {
        Vec::new()
    }
}

impl FieldType for Vec<u16> {
    open spec fn tag() -> Kind {
        Kind::VecU16
    }

    open spec fn value_of(&self) -> Value {
        Value::VecU16(self@)
    }

    open spec fn empty_value() -> Value {
        Value::VecU16(Seq::empty())
    }

    proof fn lemma_tag(&self) {
    }

    fn kind() -> Kind {
        Kind::VecU16
    }

    fn erase(&self) -> AnyRef<'_> {
        AnyRef::VecU16(self)
    }

    fn erase_mut(&mut self) -> AnyMut<'_> {
        AnyMut::VecU16(self)
    }

    fn downcast_ref<'a>(slot: AnyRef<'a>) -> Option<&'a Vec<u16>> {
        match slot {
            AnyRef::VecU16(x) => Some(x),
            _ => None,
        }
    }

    fn downcast_mut<'a, 'b>(slot: &'b mut AnyMut<'a>) -> Option<&'b mut Vec<u16>> {
        match slot {
            AnyMut::VecU16(x) => Some(&mut **x),
            _ => None,
        }
    }

    fn make_empty() -> Vec<u16> {
        Vec::new()
    }
}

impl FieldType for Vec<u32> {
    open spec fn tag() -> Kind {
        Kind::VecU32
    }

    open spec fn value_of(&self) -> Value {
        Value::VecU32(self@)
    }

    open spec fn empty_value() -> Value {
        Value::VecU32(Seq::empty())
    }

    proof fn lemma_tag(&self) {
    }

    fn kind() -> Kind {
        Kind::VecU32
    }

    fn erase(&self) -> AnyRef<'_> {
        AnyRef::VecU32(self)
    }

    fn erase_mut(&mut self) -> AnyMut<'_> {
        AnyMut::VecU32(self)
    }

    fn downcast_ref<'a>(slot: AnyRef<'a>) -> Option<&'a Vec<u32>> {
        match slot {
            AnyRef::VecU32(x) => Some(x),
            _ => None,
        }
    }

    fn downcast_mut<'a, 'b>(slot: &'b mut AnyMut<'a>) -> Option<&'b mut Vec<u32>> {
        match slot {
            AnyMut::VecU32(x) => Some(&mut **x),
            _ => None,
        }
    }

    fn make_empty() -> Vec<u32> {
        Vec::new()
    }
}

impl FieldType for Vec<u64> {
    open spec fn tag() -> Kind {
        Kind::VecU64
    }

    open spec fn value_of(&self) -> Value {
        Value::VecU64(self@)
    }

    open spec fn empty_value() -> Value {
        Value::VecU64(Seq::empty())
    }

    proof fn lemma_tag(&self) {
    }

    fn kind() -> Kind {
        Kind::VecU64
    }

    fn erase(&self) -> AnyRef<'_> {
        AnyRef::VecU64(self)
    }

    fn erase_mut(&mut self) -> AnyMut<'_> {
        AnyMut::VecU64(self)
    }

    fn downcast_ref<'a>(slot: AnyRef<'a>) -> Option<&'a Vec<u64>> {
        match slot {
            AnyRef::VecU64(x) => Some(x),
            _ => None,
        }
    }

    fn downcast_mut<'a, 'b>(slot: &'b mut AnyMut<'a>) -> Option<&'b mut Vec<u64>> {
        match slot {
            AnyMut::VecU64(x) => Some(&mut **x),
            _ => None,
        }
    }

    fn make_empty() -> Vec<u64> {
        Vec::new()
    }
}

impl FieldType for Vec<u128> {
    open spec fn tag() -> Kind {
        Kind::VecU128
    }

    open spec fn value_of(&self) -> Value {
        Value::VecU128(self@)
    }

    open spec fn empty_value() -> Value {
        Value::VecU128(Seq::empty())
    }

    proof fn lemma_tag(&self) {
    }

    fn kind() -> Kind {
        Kind::VecU128
    }

    fn erase(&self) -> AnyRef<'_> {
        AnyRef::VecU128(self)
    }

    fn erase_mut(&mut self) -> AnyMut<'_> {
        AnyMut::VecU128(self)
    }

    fn downcast_ref<'a>(slot: AnyRef<'a>) -> Option<&'a Vec<u128>> {
        match slot {
            AnyRef::VecU128(x) => Some(x),
            _ => None,
        }
    }

    fn downcast_mut<'a, 'b>(slot: &'b mut AnyMut<'a>) -> Option<&'b mut Vec<u128>> {
        match slot {
            AnyMut::VecU128(x) => Some(&mut **x),
            _ => None,
        }
    }

    fn make_empty() -> Vec<u128> {
        Vec::new()
    }
}

impl FieldType for Vec<usize> {
    open spec fn tag() -> Kind {
        Kind::VecUsize
    }

    open spec fn value_of(&self) -> Value {
        Value::VecUsize(self@)
    }

    open spec fn empty_value() -> Value {
        Value::VecUsize(Seq::empty())
    }

    proof fn lemma_tag(&self) {
    }

    fn kind() -> Kind {
        Kind::VecUsize
    }

    fn erase(&self) -> AnyRef<'_> {
        AnyRef::VecUsize(self)
    }

    fn erase_mut(&mut self) -> AnyMut<'_> {
        AnyMut::VecUsize(self)
    }

    fn downcast_ref<'a>(slot: AnyRef<'a>) -> Option<&'a Vec<usize>> {
        match slot {
            AnyRef::VecUsize(x) => Some(x),
            _ => None,
        }
    }

    fn downcast_mut<'a, 'b>(slot: &'b mut AnyMut<'a>) -> Option<&'b mut Vec<usize>> {
        match slot {
            AnyMut::VecUsize(x) => Some(&mut **x),
            _ => None,
        }
    }

    fn make_empty() -> Vec<usize> {
        Vec::new()
    }
}

impl FieldType for Vec<i8> {
    open spec fn tag() -> Kind {
        Kind::VecI8
    }

    open spec fn value_of(&self) -> Value {
        Value::VecI8(self@)
    }

    open spec fn empty_value() -> Value {
        Value::VecI8(Seq::empty())
    }

    proof fn lemma_tag(&self) {
    }

    fn kind() -> Kind {
        Kind::VecI8
    }

    fn erase(&self) -> AnyRef<'_> {
        AnyRef::VecI8(self)
    }

    fn erase_mut(&mut self) -> AnyMut<'_> {
        AnyMut::VecI8(self)
    }

    fn downcast_ref<'a>(slot: AnyRef<'a>) -> Option<&'a Vec<i8>> {
        match slot {
            AnyRef::VecI8(x) => Some(x),
            _ => None,
        }
    }

    fn downcast_mut<'a, 'b>(slot: &'b mut AnyMut<'a>) -> Option<&'b mut Vec<i8>> {
        match slot {
            AnyMut::VecI8(x) => Some(&mut **x),
            _ => None,
        }
    }

    fn make_empty() -> Vec<i8> {
        Vec::new()
    }
}

impl FieldType for Vec<i16> {
    open spec fn tag() -> Kind {
        Kind::VecI16
    }

    open spec fn value_of(&self) -> Value {
        Value::VecI16(self@)
    }

    open spec fn empty_value() -> Value {
        Value::VecI16(Seq::empty())
    }

    proof fn lemma_tag(&self) {
    }

    fn kind() -> Kind {
        Kind::VecI16
    }

    fn erase(&self) -> AnyRef<'_> {
        AnyRef::VecI16(self)
    }

    fn erase_mut(&mut self) -> AnyMut<'_> {
        AnyMut::VecI16(self)
    }

    fn downcast_ref<'a>(slot: AnyRef<'a>) -> Option<&'a Vec<i16>> {
        match slot {
            AnyRef::VecI16(x) => Some(x),
            _ => None,
        }
    }

    fn downcast_mut<'a, 'b>(slot: &'b mut AnyMut<'a>) -> Option<&'b mut Vec<i16>> {
        match slot {
            AnyMut::VecI16(x) => Some(&mut **x),
            _ => None,
        }
    }

    fn make_empty() -> Vec<i16> {
        Vec::new()
    }
}

impl FieldType for Vec<i32> {
    open spec fn tag() -> Kind {
        Kind::VecI32
    }

    open spec fn value_of(&self) -> Value {
        Value::VecI32(self@)
    }

    open spec fn empty_value() -> Value {
        Value::VecI32(Seq::empty())
    }

    proof fn lemma_tag(&self) {
    }

    fn kind() -> Kind {
        Kind::VecI32
    }

    fn erase(&self) -> AnyRef<'_> {
        AnyRef::VecI32(self)
    }

    fn erase_mut(&mut self) -> AnyMut<'_> {
        AnyMut::VecI32(self)
    }

    fn downcast_ref<'a>(slot: AnyRef<'a>) -> Option<&'a Vec<i32>> {
        match slot {
            AnyRef::VecI32(x) => Some(x),
            _ => None,
        }
    }

    fn downcast_mut<'a, 'b>(slot: &'b mut AnyMut<'a>) -> Option<&'b mut Vec<i32>> {
        match slot {
            AnyMut::VecI32(x) => Some(&mut **x),
            _ => None,
        }
    }

    fn make_empty() -> Vec<i32> {
        Vec::new()
    }
}

impl FieldType for Vec<i64> {
    open spec fn tag() -> Kind {
        Kind::VecI64
    }

    open spec fn value_of(&self) -> Value {
        Value::VecI64(self@)
    }

    open spec fn empty_value() -> Value {
        Value::VecI64(Seq::empty())
    }

    proof fn lemma_tag(&self) {
    }

    fn kind() -> Kind {
        Kind::VecI64
    }

    fn erase(&self) -> AnyRef<'_> {
        AnyRef::VecI64(self)
    }

    fn erase_mut(&mut self) -> AnyMut<'_> {
        AnyMut::VecI64(self)
    }

    fn downcast_ref<'a>(slot: AnyRef<'a>) -> Option<&'a Vec<i64>> {
        match slot {
            AnyRef::VecI64(x) => Some(x),
            _ => None,
        }
    }

    fn downcast_mut<'a, 'b>(slot: &'b mut AnyMut<'a>) -> Option<&'b mut Vec<i64>> {
        match slot {
            AnyMut::VecI64(x) => Some(&mut **x),
            _ => None,
        }
    }

    fn make_empty() -> Vec<i64> {
        Vec::new()
    }
}

impl FieldType for Vec<i128> {
    open spec fn tag() -> Kind {
        Kind::VecI128
    }

    open spec fn value_of(&self) -> Value {
        Value::VecI128(self@)
    }

    open spec fn empty_value() -> Value {
        Value::VecI128(Seq::empty())
    }

    proof fn lemma_tag(&self) {
    }

    fn kind() -> Kind {
        Kind::VecI128
    }

    fn erase(&self) -> AnyRef<'_> {
        AnyRef::VecI128(self)
    }

    fn erase_mut(&mut self) -> AnyMut<'_> {
        AnyMut::VecI128(self)
    }

    fn downcast_ref<'a>(slot: AnyRef<'a>) -> Option<&'a Vec<i128>> {
        match slot {
            AnyRef::VecI128(x) => Some(x),
            _ => None,
        }
    }

    fn downcast_mut<'a, 'b>(slot: &'b mut AnyMut<'a>) -> Option<&'b mut Vec<i128>> {
        match slot {
            AnyMut::VecI128(x) => Some(&mut **x),
            _ => None,
        }
    }

    fn make_empty() -> Vec<i128> {
        Vec::new()
    }
}

impl FieldType for Vec<isize> {
    open spec fn tag() -> Kind {
        Kind::VecIsize
    }

    open spec fn value_of(&self) -> Value {
        Value::VecIsize(self@)
    }

    open spec fn empty_value() -> Value {
        Value::VecIsize(Seq::empty())
    }

    proof fn lemma_tag(&self) {
    }

    fn kind() -> Kind {
        Kind::VecIsize
    }

    fn erase(&self) -> AnyRef<'_> {
        AnyRef::VecIsize(self)
    }

    fn erase_mut(&mut self) -> AnyMut<'_> {
        AnyMut::VecIsize(self)
    }

    fn downcast_ref<'a>(slot: AnyRef<'a>) -> Option<&'a Vec<isize>> {
        match slot {
            AnyRef::VecIsize(x) => Some(x),
            _ => None,
        }
    }

    fn downcast_mut<'a, 'b>(slot: &'b mut AnyMut<'a>) -> Option<&'b mut Vec<isize>> {
        match slot {
            AnyMut::VecIsize(x) => Some(&mut **x),
            _ => None,
        }
    }

    fn make_empty() -> Vec<isize> {
        Vec::new()
    }
}

impl FieldType for &'static [u8] {
    open spec fn tag() -> Kind {
        Kind::SliceU8
    }

    open spec fn value_of(&self) -> Value {
        Value::SliceU8((*self)@)
    }

    open spec fn empty_value() -> Value {
        Value::SliceU8(Seq::empty())
    }

    proof fn lemma_tag(&self) {
    }

    fn kind() -> Kind {
        Kind::SliceU8
    }

    fn erase(&self) -> AnyRef<'_> {
        AnyRef::SliceU8(self)
    }

    fn erase_mut(&mut self) -> AnyMut<'_> {
        AnyMut::SliceU8(self)
    }

    fn downcast_ref<'a>(slot: AnyRef<'a>) -> Option<&'a &'static [u8]> {
        match slot {
            AnyRef::SliceU8(x) => Some(x),
            _ => None,
        }
    }

    fn downcast_mut<'a, 'b>(slot: &'b mut AnyMut<'a>) -> Option<&'b mut &'static [u8]> {
        match slot {
            AnyMut::SliceU8(x) => Some(&mut **x),
            _ => None,
        }
    }

    fn make_empty() -> &'static [u8] {
        let e: &'static [u8] = &[];
        assert(e@ =~= Seq::<u8>::empty());
        e
    }
}

impl FieldType for &'static [bool] {
    open spec fn tag() -> Kind {
        Kind::SliceBool
    }

    open spec fn value_of(&self) -> Value {
        Value::SliceBool((*self)@)
    }

    open spec fn empty_value() -> Value {
        Value::SliceBool(Seq::empty())
    }

    proof fn lemma_tag(&self) {
    }

    fn kind() -> Kind {
        Kind::SliceBool
    }

    fn erase(&self) -> AnyRef<'_> {
        AnyRef::SliceBool(self)
    }

    fn erase_mut(&mut self) -> AnyMut<'_> {
        AnyMut::SliceBool(self)
    }

    fn downcast_ref<'a>(slot: AnyRef<'a>) -> Option<&'a &'static [bool]> {
        match slot {
            AnyRef::SliceBool(x) => Some(x),
            _ => None,
        }
    }

    fn downcast_mut<'a, 'b>(slot: &'b mut AnyMut<'a>) -> Option<&'b mut &'static [bool]> {
        match slot {
            AnyMut::SliceBool(x) => Some(&mut **x),
            _ => None,
        }
    }

    fn make_empty() -> &'static [bool] {
        let e: &'static [bool] = &[];
        assert(e@ =~= Seq::<bool>::empty());
        e
    }
}

impl FieldType for &'static [u16] {
    open spec fn tag() -> Kind {
        Kind::SliceU16
    }

    open spec fn value_of(&self) -> Value {
        Value::SliceU16((*self)@)
    }

    open spec fn empty_value() -> Value {
        Value::SliceU16(Seq::empty())
    }

    proof fn lemma_tag(&self) {
    }

    fn kind() -> Kind {
        Kind::SliceU16
    }

    fn erase(&self) -> AnyRef<'_> {
        AnyRef::SliceU16(self)
    }

    fn erase_mut(&mut self) -> AnyMut<'_> {
        AnyMut::SliceU16(self)
    }

    fn downcast_ref<'a>(slot: AnyRef<'a>) -> Option<&'a &'static [u16]> {
        match slot {
            AnyRef::SliceU16(x) => Some(x),
            _ => None,
        }
    }

    fn downcast_mut<'a, 'b>(slot: &'b mut AnyMut<'a>) -> Option<&'b mut &'static [u16]> {
        match slot {
            AnyMut::SliceU16(x) => Some(&mut **x),
            _ => None,
        }
    }

    fn make_empty() -> &'static [u16] {
        let e: &'static [u16] = &[];
        assert(e@ =~= Seq::<u16>::empty());
        e
    }
}

impl FieldType for &'static [u32] {
    open spec fn tag() -> Kind {
        Kind::SliceU32
    }

    open spec fn value_of(&self) -> Value {
        Value::SliceU32((*self)@)
    }

    open spec fn empty_value() -> Value {
        Value::SliceU32(Seq::empty())
    }

    proof fn lemma_tag(&self) {
    }

    fn kind() -> Kind {
        Kind::SliceU32
    }

    fn erase(&self) -> AnyRef<'_> {
        AnyRef::SliceU32(self)
    }

    fn erase_mut(&mut self) -> AnyMut<'_> {
        AnyMut::SliceU32(self)
    }

    fn downcast_ref<'a>(slot: AnyRef<'a>) -> Option<&'a &'static [u32]> {
        match slot {
            AnyRef::SliceU32(x) => Some(x),
            _ => None,
        }
    }

    fn downcast_mut<'a, 'b>(slot: &'b mut AnyMut<'a>) -> Option<&'b mut &'static [u32]> {
        match slot {
            AnyMut::SliceU32(x) => Some(&mut **x),
            _ => None,
        }
    }

    fn make_empty() -> &'static [u32] {
        let e: &'static [u32] = &[];
        assert(e@ =~= Seq::<u32>::empty());
        e
    }
}

impl FieldType for &'static [u64] {
    open spec fn tag() -> Kind {
        Kind::SliceU64
    }

    open spec fn value_of(&self) -> Value {
        Value::SliceU64((*self)@)
    }

    open spec fn empty_value() -> Value {
        Value::SliceU64(Seq::empty())
    }

    proof fn lemma_tag(&self) {
    }

    fn kind() -> Kind {
        Kind::SliceU64
    }

    fn erase(&self) -> AnyRef<'_> {
        AnyRef::SliceU64(self)
    }

    fn erase_mut(&mut self) -> AnyMut<'_> {
        AnyMut::SliceU64(self)
    }

    fn downcast_ref<'a>(slot: AnyRef<'a>) -> Option<&'a &'static [u64]> {
        match slot {
            AnyRef::SliceU64(x) => Some(x),
            _ => None,
        }
    }

    fn downcast_mut<'a, 'b>(slot: &'b mut AnyMut<'a>) -> Option<&'b mut &'static [u64]> {
        match slot {
            AnyMut::SliceU64(x) => Some(&mut **x),
            _ => None,
        }
    }

    fn make_empty() -> &'static [u64] {
        let e: &'static [u64] = &[];
        assert(e@ =~= Seq::<u64>::empty());
        e
    }
}

impl FieldType for &'static [u128] {
    open spec fn tag() -> Kind {
        Kind::SliceU128
    }

    open spec fn value_of(&self) -> Value {
        Value::SliceU128((*self)@)
    }

    open spec fn empty_value() -> Value {
        Value::SliceU128(Seq::empty())
    }

    proof fn lemma_tag(&self) {
    }

    fn kind() -> Kind {
        Kind::SliceU128
    }

    fn erase(&self) -> AnyRef<'_> {
        AnyRef::SliceU128(self)
    }

    fn erase_mut(&mut self) -> AnyMut<'_> {
        AnyMut::SliceU128(self)
    }

    fn downcast_ref<'a>(slot: AnyRef<'a>) -> Option<&'a &'static [u128]> {
        match slot {
            AnyRef::SliceU128(x) => Some(x),
            _ => None,
        }
    }

    fn downcast_mut<'a, 'b>(slot: &'b mut AnyMut<'a>) -> Option<&'b mut &'static [u128]> {
        match slot {
            AnyMut::SliceU128(x) => Some(&mut **x),
            _ => None,
        }
    }

    fn make_empty() -> &'static [u128] {
        let e: &'static [u128] = &[];
        assert(e@ =~= Seq::<u128>::empty());
        e
    }
}

impl FieldType for &'static [usize] {
    open spec fn tag() -> Kind {
        Kind::SliceUsize
    }

    open spec fn value_of(&self) -> Value {
        Value::SliceUsize((*self)@)
    }

    open spec fn empty_value() -> Value {
        Value::SliceUsize(Seq::empty())
    }

    proof fn lemma_tag(&self) {
    }

    fn kind() -> Kind {
        Kind::SliceUsize
    }

    fn erase(&self) -> AnyRef<'_> {
        AnyRef::SliceUsize(self)
    }

    fn erase_mut(&mut self) -> AnyMut<'_> {
        AnyMut::SliceUsize(self)
    }

    fn downcast_ref<'a>(slot: AnyRef<'a>) -> Option<&'a &'static [usize]> {
        match slot {
            AnyRef::SliceUsize(x) => Some(x),
            _ => None,
        }
    }

    fn downcast_mut<'a, 'b>(slot: &'b mut AnyMut<'a>) -> Option<&'b mut &'static [usize]> {
        match slot {
            AnyMut::SliceUsize(x) => Some(&mut **x),
            _ => None,
        }
    }

    fn make_empty() -> &'static [usize] {
        let e: &'static [usize] = &[];
        assert(e@ =~= Seq::<usize>::empty());
        e
    }
}

impl FieldType for &'static [i8] {
    open spec fn tag() -> Kind {
        Kind::SliceI8
    }

    open spec fn value_of(&self) -> Value {
        Value::SliceI8((*self)@)
    }

    open spec fn empty_value() -> Value {
        Value::SliceI8(Seq::empty())
    }

    proof fn lemma_tag(&self) {
    }

    fn kind() -> Kind {
        Kind::SliceI8
    }

    fn erase(&self) -> AnyRef<'_> {
        AnyRef::SliceI8(self)
    }

    fn erase_mut(&mut self) -> AnyMut<'_> {
        AnyMut::SliceI8(self)
    }

    fn downcast_ref<'a>(slot: AnyRef<'a>) -> Option<&'a &'static [i8]> {
        match slot {
            AnyRef::SliceI8(x) => Some(x),
            _ => None,
        }
    }

    fn downcast_mut<'a, 'b>(slot: &'b mut AnyMut<'a>) -> Option<&'b mut &'static [i8]> {
        match slot {
            AnyMut::SliceI8(x) => Some(&mut **x),
            _ => None,
        }
    }

    fn make_empty() -> &'static [i8] {
        let e: &'static [i8] = &[];
        assert(e@ =~= Seq::<i8>::empty());
        e
    }
}

impl FieldType for &'static [i16] {
    open spec fn tag() -> Kind {
        Kind::SliceI16
    }

    open spec fn value_of(&self) -> Value {
        Value::SliceI16((*self)@)
    }

    open spec fn empty_value() -> Value {
        Value::SliceI16(Seq::empty())
    }

    proof fn lemma_tag(&self) {
    }

    fn kind() -> Kind {
        Kind::SliceI16
    }

    fn erase(&self) -> AnyRef<'_> {
        AnyRef::SliceI16(self)
    }

    fn erase_mut(&mut self) -> AnyMut<'_> {
        AnyMut::SliceI16(self)
    }

    fn downcast_ref<'a>(slot: AnyRef<'a>) -> Option<&'a &'static [i16]> {
        match slot {
            AnyRef::SliceI16(x) => Some(x),
            _ => None,
        }
    }

    fn downcast_mut<'a, 'b>(slot: &'b mut AnyMut<'a>) -> Option<&'b mut &'static [i16]> {
        match slot {
            AnyMut::SliceI16(x) => Some(&mut **x),
            _ => None,
        }
    }

    fn make_empty() -> &'static [i16] {
        let e: &'static [i16] = &[];
        assert(e@ =~= Seq::<i16>::empty());
        e
    }
}

impl FieldType for &'static [i32] {
    open spec fn tag() -> Kind {
        Kind::SliceI32
    }

    open spec fn value_of(&self) -> Value {
        Value::SliceI32((*self)@)
    }

    open spec fn empty_value() -> Value {
        Value::SliceI32(Seq::empty())
    }

    proof fn lemma_tag(&self) {
    }

    fn kind() -> Kind {
        Kind::SliceI32
    }

    fn erase(&self) -> AnyRef<'_> {
        AnyRef::SliceI32(self)
    }

    fn erase_mut(&mut self) -> AnyMut<'_> {
        AnyMut::SliceI32(self)
    }

    fn downcast_ref<'a>(slot: AnyRef<'a>) -> Option<&'a &'static [i32]> {
        match slot {
            AnyRef::SliceI32(x) => Some(x),
            _ => None,
        }
    }

    fn downcast_mut<'a, 'b>(slot: &'b mut AnyMut<'a>) -> Option<&'b mut &'static [i32]> {
        match slot {
            AnyMut::SliceI32(x) => Some(&mut **x),
            _ => None,
        }
    }

    fn make_empty() -> &'static [i32] {
        let e: &'static [i32] = &[];
        assert(e@ =~= Seq::<i32>::empty());
        e
    }
}

impl FieldType for &'static [i64] {
    open spec fn tag() -> Kind {
        Kind::SliceI64
    }

    open spec fn value_of(&self) -> Value {
        Value::SliceI64((*self)@)
    }

    open spec fn empty_value() -> Value {
        Value::SliceI64(Seq::empty())
    }

    proof fn lemma_tag(&self) {
    }

    fn kind() -> Kind {
        Kind::SliceI64
    }

    fn erase(&self) -> AnyRef<'_> {
        AnyRef::SliceI64(self)
    }

    fn erase_mut(&mut self) -> AnyMut<'_> {
        AnyMut::SliceI64(self)
    }

    fn downcast_ref<'a>(slot: AnyRef<'a>) -> Option<&'a &'static [i64]> {
        match slot {
            AnyRef::SliceI64(x) => Some(x),
            _ => None,
        }
    }

    fn downcast_mut<'a, 'b>(slot: &'b mut AnyMut<'a>) -> Option<&'b mut &'static [i64]> {
        match slot {
            AnyMut::SliceI64(x) => Some(&mut **x),
            _ => None,
        }
    }

    fn make_empty() -> &'static [i64] {
        let e: &'static [i64] = &[];
        assert(e@ =~= Seq::<i64>::empty());
        e
    }
}

impl FieldType for &'static [i128] {
    open spec fn tag() -> Kind {
        Kind::SliceI128
    }

    open spec fn value_of(&self) -> Value {
        Value::SliceI128((*self)@)
    }

    open spec fn empty_value() -> Value {
        Value::SliceI128(Seq::empty())
    }

    proof fn lemma_tag(&self) {
    }

    fn kind() -> Kind {
        Kind::SliceI128
    }

    fn erase(&self) -> AnyRef<'_> {
        AnyRef::SliceI128(self)
    }

    fn erase_mut(&mut self) -> AnyMut<'_> {
        AnyMut::SliceI128(self)
    }

    fn downcast_ref<'a>(slot: AnyRef<'a>) -> Option<&'a &'static [i128]> {
        match slot {
            AnyRef::SliceI128(x) => Some(x),
            _ => None,
        }
    }

    fn downcast_mut<'a, 'b>(slot: &'b mut AnyMut<'a>) -> Option<&'b mut &'static [i128]> {
        match slot {
            AnyMut::SliceI128(x) => Some(&mut **x),
            _ => None,
        }
    }

    fn make_empty() -> &'static [i128] {
        let e: &'static [i128] = &[];
        assert(e@ =~= Seq::<i128>::empty());
        e
    }
}

impl FieldType for &'static [isize] {
    open spec fn tag() -> Kind {
        Kind::SliceIsize
    }

    open spec fn value_of(&self) -> Value {
        Value::SliceIsize((*self)@)
    }

    open spec fn empty_value() -> Value {
        Value::SliceIsize(Seq::empty())
    }

    proof fn lemma_tag(&self) {
    }

    fn kind() -> Kind {
        Kind::SliceIsize
    }

    fn erase(&self) -> AnyRef<'_> {
        AnyRef::SliceIsize(self)
    }

    fn erase_mut(&mut self) -> AnyMut<'_> {
        AnyMut::SliceIsize(self)
    }

    fn downcast_ref<'a>(slot: AnyRef<'a>) -> Option<&'a &'static [isize]> {
        match slot {
            AnyRef::SliceIsize(x) => Some(x),
            _ => None,
        }
    }

    fn downcast_mut<'a, 'b>(slot: &'b mut AnyMut<'a>) -> Option<&'b mut &'static [isize]> {
        match slot {
            AnyMut::SliceIsize(x) => Some(&mut **x),
            _ => None,
        }
    }

    fn make_empty() -> &'static [isize] {
        let e: &'static [isize] = &[];
        assert(e@ =~= Seq::<isize>::empty());
        e
    }
}

} // verus!
