//! The typed handle over a stored value.

use vstd::prelude::*;

verus! {

use std::sync::Arc;

/// Relies on `Arc::clone`: the clone shares the one allocation, so it holds
/// the same value.
#[verifier::external_body]
fn share<T>(v: &Arc<T>) -> (r: Arc<T>)
    ensures
        r == *v,
{
    v.clone()
}

/// Relies on `<Arc<T> as Deref>::deref`: a shared reference to the single
/// owned value.
#[verifier::external_body]
fn borrow_arc<T>(v: &Arc<T>) -> (r: &T)
    ensures
        *r == **v,
{
    &**v
}

/// A reference to one stored value of the registry: a cheaply duplicable,
/// typed view. Every duplicate, and the registry's own map entry, keep the
/// underlying value alive; it is dropped only when the last of them is.
pub struct Entry<T: 'static> {
    arc: Arc<T>,
}

impl<T: 'static> Entry<T> {
    /// The value this handle gives access to.
    pub closed spec fn value_spec(&self) -> T {
        *self.arc
    }

    /// Wraps one shared allocation as a typed handle.
    pub fn new(arc: Arc<T>) -> (e: Entry<T>)
        ensures
            e.value_spec() == *arc,
    {
        Entry { arc }
    }

    /// Shared access to the value, valid for as long as the handle is held.
    pub fn value(&self) -> (r: &T)
        ensures
            *r == self.value_spec(),
    {
        borrow_arc(&self.arc)
    }
}

impl<T: 'static> core::ops::Deref for Entry<T> {
    type Target = T;

    /// Dereferencing a handle yields the stored value, always valid while
    /// the handle is held.
    fn deref(&self) -> (r: &T)
        ensures
            *r == self.value_spec(),
    {
        borrow_arc(&self.arc)
    }
}

impl<T: 'static> Clone for Entry<T> {
    /// A duplicate handle to the identical stored value.
    fn clone(&self) -> (e: Self)
        ensures
            e.value_spec() == self.value_spec(),
    {
        Entry { arc: share(&self.arc) }
    }
}

} // verus!
