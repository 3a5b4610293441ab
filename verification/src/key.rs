//! The key of a type: its `TypeId`.

use std::any::TypeId;
use std::marker::PhantomData;
use vstd::prelude::*;

verus! {

/// `std::any::TypeId`, carried through as an opaque value: the only thing
/// the library does with one is compare it with another.
#[verifier::external_type_specification]
#[verifier::external_body]
pub struct ExTypeId(TypeId);

/// The key under which the type `T` is registered and looked up.
///
/// Each type has one key, the same wherever it is asked for; which value
/// that is stays open, so nothing can be proved from it but that a type's
/// key equals itself.
pub closed spec fn key_of<T: ?Sized + 'static>() -> TypeId {
    arbitrary::<(TypeId, PhantomData<T>)>().0
}

/// `TypeId::of::<T>()` is the key of `T`: the same value at every call.
pub assume_specification<T: ?Sized + 'static>[ TypeId::of::<T> ]() -> (id: TypeId)
    ensures
        id == key_of::<T>(),
;

/// `TypeId`'s `==`: two identifiers compare equal exactly when they are the
/// same identifier.
#[verifier::external_body]
pub(crate) fn same_key(a: &TypeId, b: &TypeId) -> (same: bool)
    ensures
        same == (*a == *b),
{
    a == b
}

} // verus!
