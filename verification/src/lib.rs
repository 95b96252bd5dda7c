//! A concurrent, type-indexed lazy-singleton registry.
//!
//! Given a static type `T` and a zero-argument factory, `get_or_init`
//! returns a shared `Entry<T>` to "the" instance of `T` for this registry,
//! creating it on first request and reusing it for every later request, from
//! any thread, without a dedicated static declaration per type.
//!
//! The registry owns one table from type identity to a type-erased value,
//! guarded by one reader/writer lock; the common read path never takes the
//! exclusive lock, and a double check under the exclusive lock keeps every
//! factory to at most one run per type.

pub mod entry;
pub mod erased;
pub mod key;
pub mod laws;
pub mod registry;
pub mod table;

pub use entry::Entry;
pub use erased::ErasedValue;
pub use key::TypeKey;
pub use registry::get_or_init_step;
pub use registry::GenericGlobal;
pub use table::Table;
