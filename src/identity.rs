use std::any::TypeId;
use vstd::prelude::*;

verus! {

/// The runtime identity of a type, as std hands it out.
#[verifier::external_type_specification]
#[verifier::external_body]
pub struct ExTypeId(TypeId);

/// The identity of a handler: the type of the handler value itself.
///
/// Every named function and every closure expression has a type of its own,
/// so two handler values share a key exactly when they come from the same
/// function or the same closure expression; what a closure captured plays no
/// part.
pub type HandlerKey = TypeId;

/// Relies on `TypeId::of`: the identity of the type `T`.
#[verifier::external_body]
pub(crate) fn type_key<T: 'static>() -> (r: TypeId) {
    TypeId::of::<T>()
}

/// Relies on `TypeId`'s `==`: two identities compare equal exactly when they
/// are the same identity.
#[verifier::external_body]
pub(crate) fn same_key(a: &TypeId, b: &TypeId) -> (r: bool)
    ensures
        r == (*a == *b),
{
    *a == *b
}

} // verus!
