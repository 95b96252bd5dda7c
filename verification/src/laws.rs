//! Laws of the registry, stated over the table's map model.
//!
//! One `get_or_init` request is an independent insert-if-absent unit: the
//! lock serialises all requests, and each request for key `k` with a
//! candidate value `v` takes the map `m` to [`step_map`]`(m, k, v)` and
//! hands back [`step_value`]`(m, k, v)`. The executable step is
//! [`crate::registry::get_or_init_step`], whose contract is stated with
//! [`step_map`]; the lemmas below state what the step implies for
//! sequences of requests.

use vstd::prelude::*;

verus! {

use crate::erased::ErasedValue;
use crate::key::TypeKey;

/// The registry's map after one request for `k` whose factory, were it run,
/// would produce `v`: unchanged when `k` is present, extended by `v` when
/// it is absent.
pub open spec fn step_map(
    m: Map<TypeKey, ErasedValue>,
    k: TypeKey,
    v: ErasedValue,
) -> Map<TypeKey, ErasedValue> {
    if m.contains_key(k) {
        m
    } else {
        m.insert(k, v)
    }
}

/// The stored value a request for `k` hands back: the present entry when
/// there is one, else the freshly created `v`.
pub open spec fn step_value(m: Map<TypeKey, ErasedValue>, k: TypeKey, v: ErasedValue) -> ErasedValue {
    if m.contains_key(k) {
        m[k]
    } else {
        v
    }
}

/// A request for one key never reads or changes any other key's entry,
/// whichever way it goes.
pub proof fn lemma_isolation(
    m: Map<TypeKey, ErasedValue>,
    k: TypeKey,
    v: ErasedValue,
    other: TypeKey,
)
    requires
        other != k,
    ensures
        step_map(m, k, v).contains_key(other) == m.contains_key(other),
        m.contains_key(other) ==> step_map(m, k, v)[other] == m[other],
{
}

/// After one request for `k`, every further request for `k` leaves the map
/// unchanged and hands back the value the first request handed back,
/// whatever its own candidate value is.
pub proof fn lemma_idempotent(
    m: Map<TypeKey, ErasedValue>,
    k: TypeKey,
    v1: ErasedValue,
    v2: ErasedValue,
)
    ensures
        step_map(step_map(m, k, v1), k, v2) == step_map(m, k, v1),
        step_value(step_map(m, k, v1), k, v2) == step_value(m, k, v1),
{
}

/// Once `k` is present, a request for it changes nothing and hands back
/// exactly the stored value, for the rest of the registry's lifetime; an
/// entry is never re-created or replaced.
pub proof fn lemma_persistent(m: Map<TypeKey, ErasedValue>, k: TypeKey, v: ErasedValue)
    requires
        m.contains_key(k),
    ensures
        step_map(m, k, v) == m,
        step_value(m, k, v) == m[k],
{
}

/// Only a request that finds `k` absent installs its own value, and it
/// installs exactly that value; afterwards `k` is present, so by
/// [`lemma_persistent`] no later request installs anything — at most one
/// factory's result ever populates an entry.
pub proof fn lemma_first_install(m: Map<TypeKey, ErasedValue>, k: TypeKey, v: ErasedValue)
    requires
        !m.contains_key(k),
    ensures
        step_map(m, k, v).contains_key(k),
        step_map(m, k, v)[k] == v,
        step_value(m, k, v) == v,
{
}

} // verus!
