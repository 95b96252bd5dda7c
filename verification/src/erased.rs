//! Type-erased shared storage: the registry's map values.

use vstd::prelude::*;

verus! {

use core::any::Any;
use std::sync::Arc;
use crate::key::TypeKey;

/// A type-erased, heap-owned value with shared ownership: the map entry and
/// every handle cloned from it keep the one underlying allocation alive.
///
/// The payload is a trait object, which the verifier cannot inspect, so the
/// whole struct is opaque to it; two `ErasedValue`s are equal exactly when
/// they are the same logical value.
#[verifier::external_body]
pub struct ErasedValue {
    inner: Arc<dyn Any + Send + Sync>,
}

/// Names the fact that the dynamic type of the payload of `v` is the type
/// identified by `k`. It is established only by [`erase_for`], which builds
/// both halves of the pair from the same static type.
pub uninterp spec fn holds_type(v: ErasedValue, k: TypeKey) -> bool;

/// Relies on `Arc::clone` and the unsized coercion to `dyn Any`: the erased
/// payload shares the caller's allocation of a `T`, and the returned key is
/// `TypeId::of::<T>()`, so the pair satisfies [`holds_type`].
#[verifier::external_body]
pub(crate) fn erase_for<T: 'static + Send + Sync>(value: &Arc<T>) -> (pair: (TypeKey, ErasedValue))
    ensures
        holds_type(pair.1, pair.0),
{
    let payload: Arc<dyn Any + Send + Sync> = value.clone();
    (TypeKey::of::<T>(), ErasedValue { inner: payload })
}

/// Relies on `Arc::downcast`: hands the payload back at type `T` when its
/// dynamic type is exactly `T`, and `None` otherwise; it never panics. The
/// verifier learns nothing of the outcome, so every caller must handle both.
#[verifier::external_body]
pub(crate) fn recover<T: 'static + Send + Sync>(v: &ErasedValue) -> (r: Option<Arc<T>>) {
    match v.inner.clone().downcast::<T>() {
        Ok(payload) => Some(payload),
        Err(_) => None,
    }
}

} // verus!
