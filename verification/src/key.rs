//! Type identity: the registry's map key.

use vstd::prelude::*;

verus! {

use core::any::TypeId;

/// Declares `core::any::TypeId` to the verifier so that it can appear in
/// signatures and fields; its representation stays opaque.
#[verifier::external_type_specification]
#[verifier::external_body]
pub struct ExTypeId(TypeId);

/// Relies on `TypeId::of`: a token identifying the static type `T` at run
/// time. Nothing is assumed about the returned value.
pub assume_specification<T: 'static + ?Sized>[ TypeId::of::<T> ]() -> TypeId;

/// Relies on `<TypeId as PartialEq>::eq`: comparison of `TypeId` values is
/// exact identity of the underlying type token, so it agrees with logical
/// equality of the opaque values.
pub assume_specification[ <TypeId as PartialEq>::eq ](a: &TypeId, b: &TypeId) -> (r: bool)
    ensures
        r == (a == b),
;

/// A value uniquely identifying one static type at run time; used only as
/// the registry's map key. Equality is identity of the originating type.
#[derive(Clone, Copy)]
pub struct TypeKey {
    id: TypeId,
}

impl TypeKey {
    /// The key under which values of type `T` are stored.
    pub fn of<T: 'static>() -> (k: TypeKey) {
        TypeKey { id: TypeId::of::<T>() }
    }
}

impl PartialEq for TypeKey {
    fn eq(&self, other: &TypeKey) -> bool {
        self.id.eq(&other.id)
    }
}

impl vstd::std_specs::cmp::PartialEqSpecImpl for TypeKey {
    open spec fn obeys_eq_spec() -> bool {
        true
    }

    open spec fn eq_spec(&self, other: &TypeKey) -> bool {
        *self == *other
    }
}

} // verus!
