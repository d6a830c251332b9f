use vstd::prelude::*;

use crate::field::{Field, FieldMut};
use crate::slot::{AnyMut, AnyRef};
use crate::value::{AccessError, Value};

verus! {

/// Low-level, name-indexed access to the fields of a record.
///
/// An implementation maps each accessible field name to a type-erased slot of
/// that field; names outside its list give nothing. It is normally generated
/// from the record's declaration. A verified implementation states its fields
/// in `field_list` and `field_value`; one that does not leaves them unknown.
pub trait AnyFieldAccess {
    /// The names of the accessible fields, in declaration order.
    closed spec fn field_list(&self) -> Seq<Seq<char>> {
        arbitrary()
    }

    /// What the named field holds.
    closed spec fn field_value(&self, name: Seq<char>) -> Value {
        arbitrary()
    }

    /// The shared slot of the named field, if the name is accessible.
    fn field_as_any(&self, field: &str) -> (r: Option<AnyRef<'_>>)
        ensures
            r is Some <==> self.field_list().contains(field@),
            r matches Some(slot) ==> slot@ == self.field_value(field@),
    ;

    /// The exclusive slot of the named field, if the name is accessible; what
    /// is written through it is what the field holds afterwards, and no other
    /// field changes.
    fn field_as_any_mut(&mut self, field: &str) -> (r: Option<AnyMut<'_>>)
        ensures
            r is Some <==> old(self).field_list().contains(field@),
            r matches Some(slot) ==> slot@ == old(self).field_value(field@),
            final(self).field_list() == old(self).field_list(),
            forall|n: Seq<char>|
                n != field@ && old(self).field_list().contains(n)
                    ==> #[trigger] final(self).field_value(n) == old(self).field_value(n),
            r is None ==> final(self).field_value(field@) == old(self).field_value(field@),
            r matches Some(slot) ==> final(self).field_value(field@) == (match slot {
                AnyMut::Bool(x) => Value::Bool(*final(x)),
                AnyMut::U8(x) => Value::U8(*final(x)),
                AnyMut::U16(x) => Value::U16(*final(x)),
                AnyMut::U32(x) => Value::U32(*final(x)),
                AnyMut::U64(x) => Value::U64(*final(x)),
                AnyMut::U128(x) => Value::U128(*final(x)),
                AnyMut::Usize(x) => Value::Usize(*final(x)),
                AnyMut::I8(x) => Value::I8(*final(x)),
                AnyMut::I16(x) => Value::I16(*final(x)),
                AnyMut::I32(x) => Value::I32(*final(x)),
                AnyMut::I64(x) => Value::I64(*final(x)),
                AnyMut::I128(x) => Value::I128(*final(x)),
                AnyMut::Isize(x) => Value::Isize(*final(x)),
                AnyMut::String(x) => Value::String((*final(x))@),
                AnyMut::Str(x) => Value::Str((*final(x))@),
                AnyMut::VecBool(x) => Value::VecBool((*final(x))@),
                AnyMut::SliceBool(x) => Value::SliceBool((*final(x))@),
                AnyMut::VecU8(x) => Value::VecU8((*final(x))@),
                AnyMut::SliceU8(x) => Value::SliceU8((*final(x))@),
                AnyMut::VecU16(x) => Value::VecU16((*final(x))@),
                AnyMut::SliceU16(x) => Value::SliceU16((*final(x))@),
                AnyMut::VecU32(x) => Value::VecU32((*final(x))@),
                AnyMut::SliceU32(x) => Value::SliceU32((*final(x))@),
                AnyMut::VecU64(x) => Value::VecU64((*final(x))@),
                AnyMut::SliceU64(x) => Value::SliceU64((*final(x))@),
                AnyMut::VecU128(x) => Value::VecU128((*final(x))@),
                AnyMut::SliceU128(x) => Value::SliceU128((*final(x))@),
                AnyMut::VecUsize(x) => Value::VecUsize((*final(x))@),
                AnyMut::SliceUsize(x) => Value::SliceUsize((*final(x))@),
                AnyMut::VecI8(x) => Value::VecI8((*final(x))@),
                AnyMut::SliceI8(x) => Value::SliceI8((*final(x))@),
                AnyMut::VecI16(x) => Value::VecI16((*final(x))@),
                AnyMut::SliceI16(x) => Value::SliceI16((*final(x))@),
                AnyMut::VecI32(x) => Value::VecI32((*final(x))@),
                AnyMut::SliceI32(x) => Value::SliceI32((*final(x))@),
                AnyMut::VecI64(x) => Value::VecI64((*final(x))@),
                AnyMut::SliceI64(x) => Value::SliceI64((*final(x))@),
                AnyMut::VecI128(x) => Value::VecI128((*final(x))@),
                AnyMut::SliceI128(x) => Value::SliceI128((*final(x))@),
                AnyMut::VecIsize(x) => Value::VecIsize((*final(x))@),
                AnyMut::SliceIsize(x) => Value::SliceIsize((*final(x))@),
            }),
    ;

    /// The names of the accessible fields, in declaration order.
    fn field_names(&self) -> (r: &'static [&'static str])
        ensures
            r@.len() == self.field_list().len(),
            forall|i: int| 0 <= i < r@.len() ==> #[trigger] r@[i]@ == self.field_list()[i],
    ;
}

/// High-level field access, available on every `AnyFieldAccess` type.
pub trait FieldAccess: AnyFieldAccess {
    /// A read-only proxy for the named field.
    fn field(&self, field: &str) -> (r: Result<Field<'_>, AccessError>)
        ensures
            r is Ok <==> self.field_list().contains(field@),
            r matches Ok(f) ==> f@ == self.field_value(field@),
            r matches Err(e) ==> e == AccessError::NoSuchField,
    {
        match self.field_as_any(field) {
            Some(slot) => Ok(Field::new(slot)),
            None => Err(AccessError::NoSuchField),
        }
    }

    /// A read-write cursor on the named field.
    fn field_mut(&mut self, field: &str) -> (r: Result<FieldMut<'_>, AccessError>)
        ensures
            r is Ok <==> old(self).field_list().contains(field@),
            r matches Ok(f) ==> f@ == old(self).field_value(field@),
            r is Ok ==> final(self).field_value(field@).kind() == old(self).field_value(
                field@,
            ).kind(),
            r matches Err(e) ==> e == AccessError::NoSuchField && final(self).field_value(field@)
                == old(self).field_value(field@),
            final(self).field_list() == old(self).field_list(),
            forall|n: Seq<char>|
                n != field@ && old(self).field_list().contains(n)
                    ==> #[trigger] final(self).field_value(n) == old(self).field_value(n),
    {
        match self.field_as_any_mut(field) {
            Some(slot) => Ok(FieldMut::new(slot)),
            None => Err(AccessError::NoSuchField),
        }
    }

    /// The fields of the owner, one proxy per accessible name, in
    /// declaration order.
    fn fields(&self) -> (r: Fields<'_, Self>) where Self: Sized
        ensures
            r@ == self.field_list(),
            r.owner() == *self,
    {
        Fields::new(self)
    }
}

impl<T: AnyFieldAccess> FieldAccess for T {

}

/// The fields of an owner, walked from either end.
pub struct Fields<'a, O: AnyFieldAccess> {
    owner: &'a O,
    names: &'static [&'static str],
    front: usize,
    back: usize,
}

impl<'a, O: AnyFieldAccess> View for Fields<'a, O> {
    type V = Seq<Seq<char>>;

    /// The names not yet walked, in order.
    closed spec fn view(&self) -> Seq<Seq<char>> {
        Seq::new((self.back - self.front) as nat, |i: int| self.names@[self.front + i]@)
    }
}

impl<'a, O: AnyFieldAccess> Fields<'a, O> {
    #[verifier::type_invariant]
    spec fn inv(&self) -> bool {
        &&& self.front <= self.back <= self.names@.len()
        &&& self.names@.len() == self.owner.field_list().len()
        &&& forall|i: int|
            0 <= i < self.names@.len() ==> #[trigger] self.names@[i]@ == self.owner.field_list()[i]
    }

    /// The owner whose fields are walked.
    pub closed spec fn owner(&self) -> O {
        *self.owner
    }

    fn new(owner: &'a O) -> (r: Fields<'a, O>)
        ensures
            r@ == owner.field_list(),
            r.owner() == *owner,
    {
        let names = owner.field_names();
        let r = Fields { owner, names, front: 0, back: names.len() };
        assert(r@ =~= owner.field_list());
        r
    }

    /// How many fields are left.
    pub fn len(&self) -> (r: usize)
        ensures
            r == self@.len(),
    {
        proof {
            use_type_invariant(self);
        }
        self.back - self.front
    }

    /// The exact number of fields left, as a lower and an upper bound.
    pub fn size_hint(&self) -> (r: (usize, Option<usize>))
        ensures
            r.0 == self@.len(),
            r.1 == Some(r.0),
    {
        let n = self.len();
        (n, Some(n))
    }

    /// The first field left, with its name.
    pub fn next(&mut self) -> (r: Option<(&'static str, Field<'a>)>)
        ensures
            final(self).owner() == old(self).owner(),
            old(self)@.len() == 0 ==> r is None && final(self)@ == old(self)@,
            old(self)@.len() > 0 ==> (r matches Some((name, f)) && name@ == old(self)@[0] && f@
                == old(self).owner().field_value(name@) && final(self)@ == old(self)@.drop_first()),
    {
        proof {
            use_type_invariant(&*self);
        }
        if self.front == self.back {
            return None;
        }
        let name = self.names[self.front];
        assert(self.owner.field_list()[self.front as int] == name@);
        // Every listed name is accessible, so the lookup cannot fail.
        let f = match self.owner.field(name) {
            Ok(f) => f,
            Err(_) => {
                return None;
            },
        };
        self.front = self.front + 1;
        assert(self@ =~= old(self)@.drop_first());
        Some((name, f))
    }

    /// The last field left, with its name.
    pub fn next_back(&mut self) -> (r: Option<(&'static str, Field<'a>)>)
        ensures
            final(self).owner() == old(self).owner(),
            old(self)@.len() == 0 ==> r is None && final(self)@ == old(self)@,
            old(self)@.len() > 0 ==> (r matches Some((name, f)) && name@ == old(self)@.last() && f@
                == old(self).owner().field_value(name@) && final(self)@ == old(self)@.drop_last()),
    {
        proof {
            use_type_invariant(&*self);
        }
        if self.front == self.back {
            return None;
        }
        let name = self.names[self.back - 1];
        assert(self.owner.field_list()[self.back - 1] == name@);
        // Every listed name is accessible, so the lookup cannot fail.
        let f = match self.owner.field(name) {
            Ok(f) => f,
            Err(_) => {
                return None;
            },
        };
        self.back = self.back - 1;
        assert(self@ =~= old(self)@.drop_last());
        Some((name, f))
    }
}

} // verus!
