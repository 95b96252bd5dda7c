//! The registry: lookup and insert-if-absent behind one reader/writer lock.

use vstd::prelude::*;

verus! {

use std::sync::Arc;
use vstd::rwlock::RwLock;
use vstd::rwlock::RwLockPredicate;
use crate::entry::Entry;
use crate::erased::erase_for;
use crate::erased::holds_type;
use crate::erased::recover;
use crate::erased::ErasedValue;
use crate::key::TypeKey;
use crate::laws::step_map;
use crate::table::Table;

/// The lock invariant of the registry's table: the table is well-formed,
/// and every stored value holds the type its key identifies, so a typed
/// read of an entry under its own key always recovers.
pub struct TableInv {}

impl RwLockPredicate<Table> for TableInv {
    open spec fn inv(self, t: Table) -> bool {
        &&& t.wf()
        &&& forall|k: TypeKey| #[trigger] t@.contains_key(k) ==> holds_type(t@[k], k)
    }
}

/// The registry's insert-if-absent unit: the phase of
/// [`GenericGlobal::get_or_init`] that runs while the exclusive lock is
/// held, stated over the table that lock guards. The contract fixes the
/// step: the table takes exactly one [`step_map`] step for some key — so it
/// is unchanged only where that key is already present, and a no-op on an
/// empty table is ruled out — every entry already present stays untouched,
/// a new entry holds the type of its own key, and a change means the
/// factory ran, its result being the value of the handle the caller gets.
///
/// The key is looked up first, so a present entry keeps the factory from
/// running; the insert itself is keyed on the pair the erasure produced,
/// with absence re-verified against that very key.
pub fn get_or_init_step<T: 'static + Send + Sync, F: FnOnce() -> T>(t: &mut Table, f: F) -> (e:
    Entry<T>)
    requires
        old(t).wf(),
        f.requires(()),
    ensures
        final(t).wf(),
        forall|k: TypeKey| #[trigger] old(t)@.contains_key(k) ==> final(t)@.contains_key(k)
            && final(t)@[k] == old(t)@[k],
        forall|k: TypeKey| #[trigger] final(t)@.contains_key(k) && !old(t)@.contains_key(k)
            ==> holds_type(final(t)@[k], k),
        exists|k: TypeKey, v: ErasedValue|
            #![trigger step_map(old(t)@, k, v)]
            final(t)@ == step_map(old(t)@, k, v) && (!old(t)@.contains_key(k) ==> holds_type(v, k)),
        final(t)@ != old(t)@ ==> call_ensures(f, (), e.value_spec()),
{
    let k = TypeKey::of::<T>();
    match t.find(&k) {
        Some(v) => {
            let found = recover::<T>(v);
            if let Some(payload) = found {
                proof {
                    assert(old(t)@.contains_key(k));
                    assert(t@ == step_map(old(t)@, k, *v));
                }
                return Entry::new(payload);
            }
        },
        None => {},
    }
    let produced = f();
    let value = Arc::new(produced);
    let (k2, erased) = erase_for::<T>(&value);
    match t.find(&k2) {
        Some(v) => {
            // Defensive arm for a state the registry never creates: at run
            // time this key was just found absent under the same exclusive
            // lock, since both lookups use the one key `T` produces. The
            // stored entry is left untouched; the caller gets it when it
            // recovers at `T`, and a fresh, unshared value otherwise.
            proof {
                assert(old(t)@.contains_key(k2));
                assert(t@ == step_map(old(t)@, k2, *v));
            }
            match recover::<T>(v) {
                Some(payload) => Entry::new(payload),
                None => Entry::new(value),
            }
        },
        None => {
            t.insert_new(k2, erased);
            proof {
                assert(t@ == step_map(old(t)@, k2, erased));
                assert forall|k3: TypeKey| #[trigger] old(t)@.contains_key(k3)
                    implies t@.contains_key(k3) && t@[k3] == old(t)@[k3] by {
                    assert(k3 != k2);
                }
                assert forall|k3: TypeKey|
                    #[trigger] t@.contains_key(k3) && !old(t)@.contains_key(k3) implies holds_type(
                    t@[k3],
                    k3,
                ) by {
                    assert(k3 == k2);
                }
            }
            Entry::new(value)
        },
    }
}

/// A mapping from type identity to one lazily created, type-erased value,
/// guarded by one reader/writer lock. The common read path takes only the
/// shared side of the lock; a double check under the exclusive side keeps
/// every factory to at most one run per type.
pub struct GenericGlobal {
    lock: RwLock<Table, TableInv>,
}

impl GenericGlobal {
    /// The registry's lock carries the table invariant.
    pub closed spec fn wf(&self) -> bool {
        self.lock.pred() == (TableInv { })
    }

    /// Creates an empty registry: no entries.
    pub fn new() -> (r: GenericGlobal)
        ensures
            r.wf(),
    {
        let t = Table::new();
        GenericGlobal { lock: RwLock::new(t, Ghost(TableInv { })) }
    }

    /// Hands back the one shared value of type `T` in this registry,
    /// creating it with `f` on the first request for `T`.
    ///
    /// The fast path looks the key up under the shared lock and never takes
    /// the exclusive one. On a suspected miss the presence check is repeated
    /// under the exclusive lock, since another thread may have inserted the
    /// key in between; only a confirmed miss runs `f`, with the exclusive
    /// lock held, and installs the result. That whole exclusive phase is
    /// [`get_or_init_step`], whose contract fixes what it returns and
    /// changes; the registry's contents themselves sit behind the lock and
    /// have no view of their own here, so the per-call promise of this
    /// function is the lock invariant [`TableInv`] together with that step.
    ///
    /// `f` must not call back into the same registry, or it deadlocks
    /// against its own exclusive lock. Likewise, if `f` panics while the
    /// exclusive lock is held, that lock is never released and every later
    /// request on this registry blocks forever: a factory failure is fatal
    /// for the registry, not recoverable.
    pub fn get_or_init<T: 'static + Send + Sync, F: FnOnce() -> T>(&self, f: F) -> (e: Entry<T>)
        requires
            self.wf(),
            f.requires(()),
    {
        let k = TypeKey::of::<T>();
        let read_handle = self.lock.acquire_read();
        let fast: Option<Arc<T>> = match read_handle.borrow().find(&k) {
            Some(v) => recover::<T>(v),
            None => None,
        };
        read_handle.release_read();
        if let Some(payload) = fast {
            return Entry::new(payload);
        }
        let (mut t, write_handle) = self.lock.acquire_write();
        let ghost t0 = t;
        let e = get_or_init_step(&mut t, f);
        proof {
            assert forall|k3: TypeKey| #[trigger] t@.contains_key(k3) implies holds_type(
                t@[k3],
                k3,
            ) by {
                if t0@.contains_key(k3) {
                    assert(t@[k3] == t0@[k3]);
                }
            }
        }
        write_handle.release_write(t);
        e
    }
}

impl Default for GenericGlobal {
    /// An empty registry.
    fn default() -> (r: Self)
        ensures
            r.wf(),
    {
        GenericGlobal::new()
    }
}

} // verus!
