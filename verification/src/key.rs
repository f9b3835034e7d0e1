//! Type identities as map keys.

use std::any::TypeId;
use vstd::prelude::*;

verus! {

/// `std::any::TypeId`, an opaque value that identifies one concrete type.
#[verifier::external_type_specification]
#[verifier::external_body]
pub struct ExTypeId(TypeId);

/// Calls `TypeId::eq`. Two identities compare equal exactly when they are the
/// same identity: std documents `TypeId` as a plain `Copy + Eq` value.
#[verifier::external_body]
pub(crate) fn same_key(a: TypeId, b: TypeId) -> (r: bool)
    ensures
        r == (a == b),
{
    a == b
}

/// Calls `TypeId::of`. Nothing is claimed of the identity that comes back.
#[verifier::external_body]
pub(crate) fn key_of<T: ?Sized + 'static>() -> (k: TypeId) {
    TypeId::of::<T>()
}

} // verus!
