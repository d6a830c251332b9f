use vstd::prelude::*;

use crate::slot::{AnyMut, AnyRef, Element, FieldType};
use crate::value::{numeric_as, AccessError, Kind, Value};

verus! {

/// A read-only proxy for one field of an owner.
///
/// Created by `FieldAccess::field`; every read resolves against the field's
/// type tag, never changing what the field holds.
#[derive(Clone, Copy, Debug)]
pub struct Field<'a> {
    value: AnyRef<'a>,
}

impl<'a> View for Field<'a> {
    type V = Value;

    closed spec fn view(&self) -> Value {
        self.value@
    }
}

impl<'a> Field<'a> {
    pub(crate) fn new(value: AnyRef<'a>) -> (r: Field<'a>)
        ensures
            r@ == value@,
    {
        Field { value }
    }

    /// Whether the field has exactly the type `T`.
    pub fn is<T: FieldType>(&self) -> (r: bool)
        ensures
            r == (self@.kind() == T::tag()),
    {
        self.value.kind() == T::kind()
    }

    /// The identity tag of the field's type.
    pub fn type_id(&self) -> (r: Kind)
        ensures
            r == self@.kind(),
    {
        self.value.kind()
    }

    /// The field's value, when the field has exactly the type `T`.
    pub fn get<T: FieldType>(&self) -> (r: Result<&'a T, AccessError>)
        ensures
            r is Ok <==> self@.kind() == T::tag(),
            r matches Ok(x) ==> x.value_of() == self@,
            r matches Err(e) ==> e == AccessError::TypeMismatch,
    {
        match T::downcast_ref(self.value) {
            Some(x) => Ok(x),
            None => Err(AccessError::TypeMismatch),
        }
    }

    /// The type-erased slot of the field.
    pub fn as_any(&self) -> (r: AnyRef<'a>)
        ensures
            r@ == self@,
    {
        self.value
    }

    /// Whether the field holds a slice of `T`.
    pub fn is_slice<T: Element>(&self) -> (r: bool)
        ensures
            r == (self@.kind() == T::slice_tag()),
    {
        self.value.kind() == T::slice_kind()
    }

    /// The field's elements as a slice, when it holds a vector or a slice of
    /// `T`.
    pub fn as_slice<T: Element>(&self) -> (r: Result<&'a [T], AccessError>)
        ensures
            r is Ok <==> T::elements(self@) is Some,
            r matches Ok(s) ==> T::elements(self@) == Some(s@),
            r matches Err(e) ==> e == AccessError::TypeMismatch,
    {
        match T::slice_in(self.value) {
            Some(s) => Ok(s),
            None => Err(AccessError::TypeMismatch),
        }
    }

    /// Whether the field holds a vector of `T`.
    pub fn is_vec<T: Element>(&self) -> (r: bool)
        ensures
            r == (self@.kind() == T::vec_tag()),
    {
        self.value.kind() == T::vec_kind()
    }

    /// Whether the field holds an owned string.
    pub fn is_string(&self) -> (r: bool)
        ensures
            r == (self@.kind() == Kind::String),
    {
        self.value.kind() == Kind::String
    }

    /// Whether the field holds a string slice.
    pub fn is_str(&self) -> (r: bool)
        ensures
            r == (self@.kind() == Kind::Str),
    {
        self.value.kind() == Kind::Str
    }

    /// The field's text, when it holds an owned string or a string slice.
    pub fn as_str(&self) -> (r: Result<&'a str, AccessError>)
        ensures
            r is Ok <==> self@.text() is Some,
            r matches Ok(s) ==> self@.text() == Some(s@),
            r matches Err(e) ==> e == AccessError::TypeMismatch,
    {
        match self.value {
            AnyRef::Str(s) => Ok(*s),
            AnyRef::String(s) => Ok(s.as_str()),
            _ => Err(AccessError::TypeMismatch),
        }
    }

    /// The field's number widened to `u128`, when it holds an unsigned integer.
    fn unsigned(&self) -> (r: Option<u128>)
        ensures
            r is Some <==> self@.kind().is_unsigned(),
            r matches Some(x) ==> self@.number() == Some(x as int),
    {
        match self.value {
            AnyRef::U8(x) => Some(*x as u128),
            AnyRef::U16(x) => Some(*x as u128),
            AnyRef::U32(x) => Some(*x as u128),
            AnyRef::U64(x) => Some(*x as u128),
            AnyRef::U128(x) => Some(*x),
            AnyRef::Usize(x) => Some(*x as u128),
            _ => None,
        }
    }

    /// The field's number widened to `i128`, when it holds a signed integer.
    fn signed(&self) -> (r: Option<i128>)
        ensures
            r is Some <==> self@.kind().is_signed(),
            r matches Some(x) ==> self@.number() == Some(x as int),
    {
        match self.value {
            AnyRef::I8(x) => Some(*x as i128),
            AnyRef::I16(x) => Some(*x as i128),
            AnyRef::I32(x) => Some(*x as i128),
            AnyRef::I64(x) => Some(*x as i128),
            AnyRef::I128(x) => Some(*x),
            AnyRef::Isize(x) => Some(*x as i128),
            _ => None,
        }
    }

    /// Whether the field has exactly the type `bool`.
    pub fn is_bool(&self) -> (r: bool)
        ensures
            r == (self@.kind() == Kind::Bool),
    {
        self.value.kind() == Kind::Bool
    }

    /// Whether the field has exactly the type `u8`.
    pub fn is_u8(&self) -> (r: bool)
        ensures
            r == (self@.kind() == Kind::U8),
    {
        self.value.kind() == Kind::U8
    }

    /// Whether the field has exactly the type `u16`.
    pub fn is_u16(&self) -> (r: bool)
        ensures
            r == (self@.kind() == Kind::U16),
    {
        self.value.kind() == Kind::U16
    }

    /// Whether the field has exactly the type `u32`.
    pub fn is_u32(&self) -> (r: bool)
        ensures
            r == (self@.kind() == Kind::U32),
    {
        self.value.kind() == Kind::U32
    }

    /// Whether the field has exactly the type `u64`.
    pub fn is_u64(&self) -> (r: bool)
        ensures
            r == (self@.kind() == Kind::U64),
    {
        self.value.kind() == Kind::U64
    }

    /// Whether the field has exactly the type `u128`.
    pub fn is_u128(&self) -> (r: bool)
        ensures
            r == (self@.kind() == Kind::U128),
    {
        self.value.kind() == Kind::U128
    }

    /// Whether the field has exactly the type `usize`.
    pub fn is_usize(&self) -> (r: bool)
        ensures
            r == (self@.kind() == Kind::Usize),
    {
        self.value.kind() == Kind::Usize
    }

    /// Whether the field has exactly the type `i8`.
    pub fn is_i8(&self) -> (r: bool)
        ensures
            r == (self@.kind() == Kind::I8),
    {
        self.value.kind() == Kind::I8
    }

    /// Whether the field has exactly the type `i16`.
    pub fn is_i16(&self) -> (r: bool)
        ensures
            r == (self@.kind() == Kind::I16),
    {
        self.value.kind() == Kind::I16
    }

    /// Whether the field has exactly the type `i32`.
    pub fn is_i32(&self) -> (r: bool)
        ensures
            r == (self@.kind() == Kind::I32),
    {
        self.value.kind() == Kind::I32
    }

    /// Whether the field has exactly the type `i64`.
    pub fn is_i64(&self) -> (r: bool)
        ensures
            r == (self@.kind() == Kind::I64),
    {
        self.value.kind() == Kind::I64
    }

    /// Whether the field has exactly the type `i128`.
    pub fn is_i128(&self) -> (r: bool)
        ensures
            r == (self@.kind() == Kind::I128),
    {
        self.value.kind() == Kind::I128
    }

    /// Whether the field has exactly the type `isize`.
    pub fn is_isize(&self) -> (r: bool)
        ensures
            r == (self@.kind() == Kind::Isize),
    {
        self.value.kind() == Kind::Isize
    }

    /// The field's value as `bool`; only a `bool` field gives one.
    pub fn as_bool(&self) -> (r: Result<bool, AccessError>)
        ensures
            r is Ok <==> self@.kind() == Kind::Bool,
            r matches Ok(b) ==> self@ == Value::Bool(b),
            r matches Err(e) ==> e == AccessError::TypeMismatch,
    {
        match self.value {
            AnyRef::Bool(b) => Ok(*b),
            _ => Err(AccessError::TypeMismatch),
        }
    }

    /// The field's value as `u8`: from an integer field of the same
    /// signedness whose value fits in `u8`.
    pub fn as_u8(&self) -> (r: Result<u8, AccessError>)
        ensures
            r is Ok <==> numeric_as(self@, Kind::U8) is Some,
            r matches Ok(x) ==> numeric_as(self@, Kind::U8) == Some(x as int),
            r matches Err(e) ==> e == AccessError::TypeMismatch,
    {
        match self.unsigned() {
            Some(x) => if x <= u8::MAX as u128 {
                Ok(x as u8)
            } else {
                Err(AccessError::TypeMismatch)
            },
            None => Err(AccessError::TypeMismatch),
        }
    }

    /// The field's value as `u16`: from an integer field of the same
    /// signedness whose value fits in `u16`.
    pub fn as_u16(&self) -> (r: Result<u16, AccessError>)
        ensures
            r is Ok <==> numeric_as(self@, Kind::U16) is Some,
            r matches Ok(x) ==> numeric_as(self@, Kind::U16) == Some(x as int),
            r matches Err(e) ==> e == AccessError::TypeMismatch,
    {
        match self.unsigned() {
            Some(x) => if x <= u16::MAX as u128 {
                Ok(x as u16)
            } else {
                Err(AccessError::TypeMismatch)
            },
            None => Err(AccessError::TypeMismatch),
        }
    }

    /// The field's value as `u32`: from an integer field of the same
    /// signedness whose value fits in `u32`.
    pub fn as_u32(&self) -> (r: Result<u32, AccessError>)
        ensures
            r is Ok <==> numeric_as(self@, Kind::U32) is Some,
            r matches Ok(x) ==> numeric_as(self@, Kind::U32) == Some(x as int),
            r matches Err(e) ==> e == AccessError::TypeMismatch,
    {
        match self.unsigned() {
            Some(x) => if x <= u32::MAX as u128 {
                Ok(x as u32)
            } else {
                Err(AccessError::TypeMismatch)
            },
            None => Err(AccessError::TypeMismatch),
        }
    }

    /// The field's value as `u64`: from an integer field of the same
    /// signedness whose value fits in `u64`.
    pub fn as_u64(&self) -> (r: Result<u64, AccessError>)
        ensures
            r is Ok <==> numeric_as(self@, Kind::U64) is Some,
            r matches Ok(x) ==> numeric_as(self@, Kind::U64) == Some(x as int),
            r matches Err(e) ==> e == AccessError::TypeMismatch,
    {
        match self.unsigned() {
            Some(x) => if x <= u64::MAX as u128 {
                Ok(x as u64)
            } else {
                Err(AccessError::TypeMismatch)
            },
            None => Err(AccessError::TypeMismatch),
        }
    }

    /// The field's value as `u128`: from an integer field of the same
    /// signedness whose value fits in `u128`.
    pub fn as_u128(&self) -> (r: Result<u128, AccessError>)
        ensures
            r is Ok <==> numeric_as(self@, Kind::U128) is Some,
            r matches Ok(x) ==> numeric_as(self@, Kind::U128) == Some(x as int),
            r matches Err(e) ==> e == AccessError::TypeMismatch,
    {
        match self.unsigned() {
            Some(x) => Ok(x),
            None => Err(AccessError::TypeMismatch),
        }
    }

    /// The field's value as `usize`: from an integer field of the same
    /// signedness whose value fits in `usize`.
    pub fn as_usize(&self) -> (r: Result<usize, AccessError>)
        ensures
            r is Ok <==> numeric_as(self@, Kind::Usize) is Some,
            r matches Ok(x) ==> numeric_as(self@, Kind::Usize) == Some(x as int),
            r matches Err(e) ==> e == AccessError::TypeMismatch,
    {
        match self.unsigned() {
            Some(x) => if x <= usize::MAX as u128 {
                Ok(x as usize)
            } else {
                Err(AccessError::TypeMismatch)
            },
            None => Err(AccessError::TypeMismatch),
        }
    }

    /// The field's value as `i8`: from an integer field of the same
    /// signedness whose value fits in `i8`.
    pub fn as_i8(&self) -> (r: Result<i8, AccessError>)
        ensures
            r is Ok <==> numeric_as(self@, Kind::I8) is Some,
            r matches Ok(x) ==> numeric_as(self@, Kind::I8) == Some(x as int),
            r matches Err(e) ==> e == AccessError::TypeMismatch,
    {
        match self.signed() {
            Some(x) => if i8::MIN as i128 <= x && x <= i8::MAX as i128 {
                Ok(x as i8)
            } else {
                Err(AccessError::TypeMismatch)
            },
            None => Err(AccessError::TypeMismatch),
        }
    }

    /// The field's value as `i16`: from an integer field of the same
    /// signedness whose value fits in `i16`.
    pub fn as_i16(&self) -> (r: Result<i16, AccessError>)
        ensures
            r is Ok <==> numeric_as(self@, Kind::I16) is Some,
            r matches Ok(x) ==> numeric_as(self@, Kind::I16) == Some(x as int),
            r matches Err(e) ==> e == AccessError::TypeMismatch,
    {
        match self.signed() {
            Some(x) => if i16::MIN as i128 <= x && x <= i16::MAX as i128 {
                Ok(x as i16)
            } else {
                Err(AccessError::TypeMismatch)
            },
            None => Err(AccessError::TypeMismatch),
        }
    }

    /// The field's value as `i32`: from an integer field of the same
    /// signedness whose value fits in `i32`.
    pub fn as_i32(&self) -> (r: Result<i32, AccessError>)
        ensures
            r is Ok <==> numeric_as(self@, Kind::I32) is Some,
            r matches Ok(x) ==> numeric_as(self@, Kind::I32) == Some(x as int),
            r matches Err(e) ==> e == AccessError::TypeMismatch,
    {
        match self.signed() {
            Some(x) => if i32::MIN as i128 <= x && x <= i32::MAX as i128 {
                Ok(x as i32)
            } else {
                Err(AccessError::TypeMismatch)
            },
            None => Err(AccessError::TypeMismatch),
        }
    }

    /// The field's value as `i64`: from an integer field of the same
    /// signedness whose value fits in `i64`.
    pub fn as_i64(&self) -> (r: Result<i64, AccessError>)
        ensures
            r is Ok <==> numeric_as(self@, Kind::I64) is Some,
            r matches Ok(x) ==> numeric_as(self@, Kind::I64) == Some(x as int),
            r matches Err(e) ==> e == AccessError::TypeMismatch,
    {
        match self.signed() {
            Some(x) => if i64::MIN as i128 <= x && x <= i64::MAX as i128 {
                Ok(x as i64)
            } else {
                Err(AccessError::TypeMismatch)
            },
            None => Err(AccessError::TypeMismatch),
        }
    }

    /// The field's value as `i128`: from an integer field of the same
    /// signedness whose value fits in `i128`.
    pub fn as_i128(&self) -> (r: Result<i128, AccessError>)
        ensures
            r is Ok <==> numeric_as(self@, Kind::I128) is Some,
            r matches Ok(x) ==> numeric_as(self@, Kind::I128) == Some(x as int),
            r matches Err(e) ==> e == AccessError::TypeMismatch,
    {
        match self.signed() {
            Some(x) => Ok(x),
            None => Err(AccessError::TypeMismatch),
        }
    }

    /// The field's value as `isize`: from an integer field of the same
    /// signedness whose value fits in `isize`.
    pub fn as_isize(&self) -> (r: Result<isize, AccessError>)
        ensures
            r is Ok <==> numeric_as(self@, Kind::Isize) is Some,
            r matches Ok(x) ==> numeric_as(self@, Kind::Isize) == Some(x as int),
            r matches Err(e) ==> e == AccessError::TypeMismatch,
    {
        match self.signed() {
            Some(x) => if isize::MIN as i128 <= x && x <= isize::MAX as i128 {
                Ok(x as isize)
            } else {
                Err(AccessError::TypeMismatch)
            },
            None => Err(AccessError::TypeMismatch),
        }
    }
}

/// A read-write cursor on one field of an owner.
///
/// Created by `FieldAccess::field_mut`. Writes go through only with the
/// field's exact type: a write never changes the field's type tag. The
/// contracts of its methods speak of the field as the cursor sees it; the
/// owner's side of the borrow is stated by `AnyFieldAccess::field_as_any_mut`.
#[derive(Debug)]
pub struct FieldMut<'a> {
    value: AnyMut<'a>,
}

impl<'a> View for FieldMut<'a> {
    type V = Value;

    closed spec fn view(&self) -> Value {
        self.value@
    }
}

impl<'a> FieldMut<'a> {
    pub(crate) fn new(value: AnyMut<'a>) -> (r: FieldMut<'a>)
        ensures
            r@ == value@,
    {
        FieldMut { value }
    }

    /// A read-only view of the same field.
    pub fn as_field(&self) -> (r: Field<'_>)
        ensures
            r@ == self@,
    {
        Field::new(self.value.as_shared())
    }

    /// Exclusive access to the field's value, when the field has exactly the
    /// type `T`.
    pub fn get_mut<T: FieldType>(&mut self) -> (r: Result<&mut T, AccessError>)
        ensures
            r is Ok <==> old(self)@.kind() == T::tag(),
            r matches Ok(x) ==> x.value_of() == old(self)@ && final(self)@ == (
            *final(x)).value_of(),
            r matches Err(e) ==> e == AccessError::TypeMismatch && final(self)@ == old(self)@,
    {
        match T::downcast_mut(&mut self.value) {
            Some(x) => Ok(x),
            None => Err(AccessError::TypeMismatch),
        }
    }

    /// The type-erased exclusive slot of the field.
    pub fn as_any_mut(&mut self) -> (r: &mut AnyMut<'a>)
        ensures
            (*r)@ == old(self)@,
            final(self)@ == (*final(r))@,
    {
        &mut self.value
    }

    /// Overwrites the field with `value`, when the field has exactly the type
    /// `T`; otherwise the field is left as it was.
    pub fn set<T: FieldType>(&mut self, value: T) -> (r: Result<(), AccessError>)
        ensures
            r is Ok <==> old(self)@.kind() == T::tag(),
            r is Ok ==> final(self)@ == value.value_of(),
            r matches Err(e) ==> e == AccessError::TypeMismatch && final(self)@ == old(self)@,
    {
        match self.replace(value) {
            Ok(_) => Ok(()),
            Err(e) => Err(e),
        }
    }

    /// Overwrites the field with `value` and hands back what it held, when the
    /// field has exactly the type `T`; otherwise the field is left as it was.
    pub fn replace<T: FieldType>(&mut self, value: T) -> (r: Result<T, AccessError>)
        ensures
            r is Ok <==> old(self)@.kind() == T::tag(),
            r matches Ok(prev) ==> prev.value_of() == old(self)@ && final(self)@
                == value.value_of(),
            r matches Err(e) ==> e == AccessError::TypeMismatch && final(self)@ == old(self)@,
    {
        match self.get_mut::<T>() {
            Ok(dest) => {
                let mut v = value;
                core::mem::swap(dest, &mut v);
                Ok(v)
            },
            Err(e) => Err(e),
        }
    }

    /// Exchanges the field's value with `*value`, when the field has exactly
    /// the type `T`; otherwise both are left as they were.
    pub fn swap<T: FieldType>(&mut self, value: &mut T) -> (r: Result<(), AccessError>)
        ensures
            r is Ok <==> old(self)@.kind() == T::tag(),
            r is Ok ==> final(self)@ == old(value).value_of() && final(value).value_of()
                == old(self)@,
            r matches Err(e) ==> e == AccessError::TypeMismatch && final(self)@ == old(self)@
                && *final(value) == *old(value),
    {
        match self.get_mut::<T>() {
            Ok(dest) => {
                core::mem::swap(dest, value);
                Ok(())
            },
            Err(e) => Err(e),
        }
    }

    /// Hands back the field's value and leaves the empty value of `T` in its
    /// place, when the field has exactly the type `T`; otherwise the field is
    /// left as it was.
    pub fn take<T: FieldType>(&mut self) -> (r: Result<T, AccessError>)
        ensures
            r is Ok <==> old(self)@.kind() == T::tag(),
            r matches Ok(prev) ==> prev.value_of() == old(self)@ && final(self)@
                == T::empty_value(),
            r matches Err(e) ==> e == AccessError::TypeMismatch && final(self)@ == old(self)@,
    {
        self.replace(T::make_empty())
    }

    /// Exclusive access to the field's vector, when it holds a vector of `T`.
    pub fn as_vec_mut<T: Element>(&mut self) -> (r: Result<&mut Vec<T>, AccessError>)
        ensures
            r is Ok <==> old(self)@.kind() == T::vec_tag(),
            r matches Ok(x) ==> T::vec_value(x@) == old(self)@ && final(self)@ == T::vec_value(
                (*final(x))@,
            ),
            r matches Err(e) ==> e == AccessError::TypeMismatch && final(self)@ == old(self)@,
    {
        match T::vec_in_mut(&mut self.value) {
            Some(x) => Ok(x),
            None => Err(AccessError::TypeMismatch),
        }
    }
}

} // verus!
