use vstd::prelude::*;

use crate::access::AnyFieldAccess;
use crate::slot::FieldType;
use crate::value::{numeric_as, Kind, Value};

verus! {

/// Reading a declared field as its own type succeeds and gives what it holds.
///
/// `FieldAccess::field` finds exactly the names in the owner's list and
/// refuses every other name as `NoSuchField`. A field of type `T` holding
/// `x` carries `T`'s tag, which is all that `Field::get::<T>` asks, and the
/// value handed back is seen as the field's value is.
pub proof fn law_exact_access<O: AnyFieldAccess, T: FieldType>(owner: O, name: Seq<char>, x: T)
    requires
        owner.field_list().contains(name),
        owner.field_value(name) == x.value_of(),
    ensures
        owner.field_value(name).kind() == T::tag(),
{
    x.lemma_tag();
}

/// Reading a field as an integer type other than its own succeeds only by a
/// lossless conversion.
///
/// The field's own type always reads. A field of the other signedness, or one
/// that holds no integer, never does. Within one signedness the read succeeds
/// exactly when the stored number fits the target's range, which always
/// holds when the target is at least as wide as the field's own type.
pub proof fn law_numeric_read(v: Value, k: Kind)
    requires
        k.is_unsigned() || k.is_signed(),
    ensures
        v.kind() == k ==> numeric_as(v, k) == v.number(),
        !v.kind().same_family(k) ==> numeric_as(v, k) is None,
        v.kind().same_family(k) ==> (numeric_as(v, k) is Some <==> k.min() <= v.number()->0
            <= k.max()),
        v.kind().same_family(k) && k.min() <= v.kind().min() && v.kind().max() <= k.max()
            ==> numeric_as(v, k) == v.number(),
{
}

/// Writing a value and reading it back as the same type gives that value.
///
/// `FieldMut::set::<T>(x)` succeeds on a field that has type `T` and leaves
/// it holding `x.value_of()`. That value carries `T`'s tag again, so the
/// following `get::<T>` succeeds, and what it hands back is seen as `x` is.
pub proof fn law_set_then_get<T: FieldType>(before: Value, x: T, y: T)
    requires
        before.kind() == T::tag(),
        y.value_of() == x.value_of(),
    ensures
        x.value_of().kind() == T::tag(),
        y.value_of().kind() == T::tag(),
{
    x.lemma_tag();
}

/// Repeated reads of a field agree.
///
/// Reads take the owner by shared reference and leave it as it was; every
/// value that a read as `T` hands back is seen as the field's value is, so two
/// such reads are seen alike.
pub proof fn law_repeated_reads<O: AnyFieldAccess, T: FieldType>(
    owner: O,
    name: Seq<char>,
    a: T,
    b: T,
)
    requires
        a.value_of() == owner.field_value(name),
        b.value_of() == owner.field_value(name),
    ensures
        a.value_of() == b.value_of(),
{
}

/// Among unsigned integer types, a wide read decides every narrower read.
///
/// When a read as the wider kind succeeds with `x`, a read as a kind no wider
/// succeeds with the same `x` if `x` fits that kind, and fails otherwise.
pub proof fn law_unsigned_widening(v: Value, narrow: Kind, wide: Kind, x: int)
    requires
        narrow.is_unsigned(),
        wide.is_unsigned(),
        narrow.max() <= wide.max(),
        numeric_as(v, wide) == Some(x),
    ensures
        x <= narrow.max() ==> numeric_as(v, narrow) == Some(x),
        x > narrow.max() ==> numeric_as(v, narrow) is None,
{
}

} // verus!
