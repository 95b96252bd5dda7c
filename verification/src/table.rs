//! The registry's table: type key to erased value, read as a finite map.

use vstd::prelude::*;

verus! {

use crate::erased::ErasedValue;
use crate::key::TypeKey;

/// An association list from type key to erased value, read as a finite map.
/// Keys are unique; the order of entries is not part of the model. Entries
/// are only ever added, one per key, and never replaced or removed.
pub struct Table {
    entries: Vec<(TypeKey, ErasedValue)>,
}

impl Table {
    /// The mathematical content of a list of pairs; a later entry would
    /// shadow an earlier one, though a well-formed table never holds two
    /// entries for one key.
    pub closed spec fn map_of(pairs: Seq<(TypeKey, ErasedValue)>) -> Map<TypeKey, ErasedValue>
        decreases pairs.len(),
    {
        if pairs.len() == 0 {
            Map::empty()
        } else {
            Self::map_of(pairs.drop_last()).insert(pairs.last().0, pairs.last().1)
        }
    }

    /// The finite map this table holds.
    pub closed spec fn view(&self) -> Map<TypeKey, ErasedValue> {
        Self::map_of(self.entries@)
    }

    /// Well-formed: no key occurs twice.
    pub closed spec fn wf(&self) -> bool {
        forall|i: int, j: int|
            0 <= i < j < self.entries@.len() ==> self.entries@[i].0 != self.entries@[j].0
    }

    /// A key is in the map exactly when some entry of the list carries it.
    proof fn lemma_map_of_contains(pairs: Seq<(TypeKey, ErasedValue)>, k: TypeKey)
        ensures
            Self::map_of(pairs).contains_key(k) <==> exists|i: int|
                0 <= i < pairs.len() && pairs[i].0 == k,
        decreases pairs.len(),
    {
        if pairs.len() > 0 {
            let butlast = pairs.drop_last();
            Self::lemma_map_of_contains(butlast, k);
            if Self::map_of(pairs).contains_key(k) {
                if pairs.last().0 == k {
                    assert(pairs[pairs.len() - 1].0 == k);
                } else {
                    let i = choose|i: int| 0 <= i < butlast.len() && butlast[i].0 == k;
                    assert(pairs[i].0 == k);
                }
            }
            if exists|i: int| 0 <= i < pairs.len() && pairs[i].0 == k {
                let i = choose|i: int| 0 <= i < pairs.len() && pairs[i].0 == k;
                if i < pairs.len() - 1 {
                    assert(butlast[i].0 == k);
                }
            }
        }
    }

    /// In a duplicate-free list, the map hands back exactly the entry that
    /// carries the key.
    proof fn lemma_map_of_get(pairs: Seq<(TypeKey, ErasedValue)>, i: int)
        requires
            0 <= i < pairs.len(),
            forall|a: int, b: int| 0 <= a < b < pairs.len() ==> pairs[a].0 != pairs[b].0,
        ensures
            Self::map_of(pairs).contains_key(pairs[i].0),
            Self::map_of(pairs)[pairs[i].0] == pairs[i].1,
        decreases pairs.len(),
    {
        let butlast = pairs.drop_last();
        if i < pairs.len() - 1 {
            Self::lemma_map_of_get(butlast, i);
            assert(pairs[pairs.len() - 1].0 != pairs[i].0);
        }
    }

    /// Creates an empty table.
    pub fn new() -> (t: Table)
        ensures
            t@ == Map::<TypeKey, ErasedValue>::empty(),
            t.wf(),
    {
        Table { entries: Vec::new() }
    }

    /// Looks a key up: the entry stored under `k`, if there is one.
    pub fn find(&self, k: &TypeKey) -> (r: Option<&ErasedValue>)
        requires
            self.wf(),
        ensures
            match r {
                Some(v) => self@.contains_key(*k) && *v == self@[*k],
                None => !self@.contains_key(*k),
            },
    {
        let n: usize = self.entries.len();
        let mut i: usize = 0;
        while i < n
            invariant
                n == self.entries@.len(),
                i <= n,
                self.wf(),
                forall|j: int| 0 <= j < i ==> self.entries@[j].0 != *k,
            decreases n - i,
        {
            let pair = &self.entries[i];
            if pair.0 == *k {
                proof {
                    Self::lemma_map_of_get(self.entries@, i as int);
                }
                return Some(&pair.1);
            }
            i = i + 1;
        }
        proof {
            Self::lemma_map_of_contains(self.entries@, *k);
        }
        None
    }

    /// Adds a value under a key that is not yet present: the single way the
    /// table ever changes. No entry is ever replaced or removed.
    pub fn insert_new(&mut self, k: TypeKey, v: ErasedValue)
        requires
            old(self).wf(),
            !old(self)@.contains_key(k),
        ensures
            final(self).wf(),
            final(self)@ == old(self)@.insert(k, v),
    {
        proof {
            Self::lemma_map_of_contains(self.entries@, k);
        }
        self.entries.push((k, v));
        proof {
            assert(self.entries@.drop_last() =~= old(self).entries@);
            assert(self.entries@.last() == (k, v));
        }
    }
}

} // verus!
