//! A lookup table with at most one value for each key.

use crate::bytes::Key;
use vstd::prelude::*;

verus! {

/// The map that a list of bindings stands for: a later binding of a key
/// replaces an earlier one.
pub open spec fn bindings<K, V>(entries: Seq<(K, V)>) -> Map<K, V>
    decreases entries.len(),
{
    if entries.len() == 0 {
        Map::empty()
    } else {
        bindings(entries.drop_last()).insert(entries.last().0, entries.last().1)
    }
}

/// A finite map from keys to values.
#[derive(Debug)]
pub struct Table<K: Key, V: Copy> {
    entries: Vec<(K, V)>,
}

impl<K: Key, V: Copy> View for Table<K, V> {
    type V = Map<K, V>;

    closed spec fn view(&self) -> Map<K, V> {
        bindings(self.entries@)
    }
}

impl<K: Key, V: Copy> Table<K, V> {
    /// The empty table.
    pub fn new() -> (result: Self)
        ensures
            result@ == Map::<K, V>::empty(),
    {
        Table { entries: Vec::new() }
    }

    /// The value of `key`, where it has one.
    pub fn get(&self, key: &K) -> (result: Option<V>)
        ensures
            result == self@.get(*key),
    {
        let mut found: Option<V> = None;
        let mut i: usize = 0;
        while i < self.entries.len()
            invariant
                i <= self.entries.len(),
                found == bindings(self.entries@.take(i as int)).get(*key),
            decreases self.entries.len() - i,
        {
            proof {
                let next = self.entries@.take(i + 1);
                assert(next.drop_last() =~= self.entries@.take(i as int));
                assert(next.last() == self.entries@[i as int]);
            }
            if self.entries[i].0.same(key) {
                found = Some(self.entries[i].1);
            }
            i += 1;
        }
        assert(self.entries@.take(i as int) =~= self.entries@);
        found
    }

    /// Takes `key` and its value out of the table.
    pub fn remove(&mut self, key: &K)
        ensures
            final(self)@ == old(self)@.remove(*key),
    {
        let mut kept: Vec<(K, V)> = Vec::new();
        let mut i: usize = 0;
        assert(Map::<K, V>::empty().remove(*key) =~= Map::<K, V>::empty());
        while i < self.entries.len()
            invariant
                i <= self.entries.len(),
                bindings(kept@) == bindings(self.entries@.take(i as int)).remove(*key),
            decreases self.entries.len() - i,
        {
            let entry = self.entries[i];
            let ghost before = kept@;
            let ghost seen = bindings(self.entries@.take(i as int));
            proof {
                let next = self.entries@.take(i + 1);
                assert(next.drop_last() =~= self.entries@.take(i as int));
                assert(next.last() == self.entries@[i as int]);
            }
            if entry.0.same(key) {
                assert(seen.insert(entry.0, entry.1).remove(*key) =~= seen.remove(*key));
            } else {
                kept.push(entry);
                assert(kept@.drop_last() =~= before);
                assert(seen.insert(entry.0, entry.1).remove(*key) =~= seen.remove(*key).insert(
                    entry.0,
                    entry.1,
                ));
            }
            i += 1;
        }
        assert(self.entries@.take(i as int) =~= self.entries@);
        self.entries = kept;
    }

    /// Gives `key` the value `value`, in place of any that it had.
    pub fn insert(&mut self, key: K, value: V)
        ensures
            final(self)@ == old(self)@.insert(key, value),
    {
        self.remove(&key);
        let ghost before = self.entries@;
        self.entries.push((key, value));
        assert(self.entries@.drop_last() =~= before);
        assert(old(self)@.remove(key).insert(key, value) =~= old(self)@.insert(key, value));
    }
}

} // verus!
