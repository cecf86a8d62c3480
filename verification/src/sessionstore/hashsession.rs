//! The default [`SessionStore`] implementation.
//!
//! [`HashSessionStore`] keeps one [`EntryLock`] per present key, in a
//! compact table scanned by key equality. Its
//! abstract contents is the map carrying each stored key's view to the value
//! its entry holds; the representation invariant is that no two entries
//! carry keys with the same view, so each session has exactly one entry.
//!
//! Presence is decided and the entry created in one operation against the
//! key table — there is no separate check-then-create step whose two halves
//! a caller could observe apart — so of two insertions of the same absent
//! key, exactly one creates the entry and the other finds it present and
//! leaves it untouched.

use vstd::prelude::*;

use super::SessionKey;
use super::SessionStore;
use super::SessionValue;
use super::entrylock::EntryLock;

verus! {

/// One present session: a stored duplicate of the key, and the value behind
/// its entry's container.
struct Entry<K, V> {
    key: K,
    lock: EntryLock<V>,
}

/// The default session store: a table of per-key entries.
pub struct HashSessionStore<K, V> {
    entries: Vec<Entry<K, V>>,
}

/// No two entries carry keys with the same view.
spec fn keys_distinct<K: View, V>(s: Seq<Entry<K, V>>) -> bool {
    forall|i: int, j: int|
        0 <= i < j < s.len() ==> (#[trigger] s[i]).key@ != (#[trigger] s[j]).key@
}

/// The map an entry table denotes: each entry binds its key's view to the
/// value its container holds; a later entry would shadow an earlier one,
/// but under `keys_distinct` no two entries share a key.
spec fn entries_map<K: View, V>(s: Seq<Entry<K, V>>) -> Map<K::V, V>
    decreases s.len(),
{
    if s.len() == 0 {
        Map::empty()
    } else {
        entries_map(s.drop_last()).insert(s.last().key@, s.last().lock@)
    }
}

/// A key carried by no entry is not in the denoted map.
proof fn lemma_absent<K: View, V>(s: Seq<Entry<K, V>>, k: K::V)
    requires
        forall|j: int| 0 <= j < s.len() ==> (#[trigger] s[j]).key@ != k,
    ensures
        !entries_map(s).contains_key(k),
    decreases s.len(),
{
    if s.len() > 0 {
        assert forall|j: int| 0 <= j < s.drop_last().len() implies (#[trigger] s.drop_last()[j]).key@
            != k by {
            assert(s.drop_last()[j] == s[j]);
        }
        lemma_absent(s.drop_last(), k);
        assert(s.last() == s[s.len() - 1]);
    }
}

/// Distinctness is inherited by the table without its last entry.
proof fn lemma_drop_last_distinct<K: View, V>(s: Seq<Entry<K, V>>)
    requires
        keys_distinct(s),
        s.len() > 0,
    ensures
        keys_distinct(s.drop_last()),
{
    assert forall|i: int, j: int| 0 <= i < j < s.drop_last().len() implies (#[trigger] s.drop_last()[i]).key@
        != (#[trigger] s.drop_last()[j]).key@ by {
        assert(s.drop_last()[i] == s[i]);
        assert(s.drop_last()[j] == s[j]);
    }
}

/// Under distinct keys, the entry at position `i` is what the denoted map
/// binds its key to.
proof fn lemma_at<K: View, V>(s: Seq<Entry<K, V>>, i: int)
    requires
        keys_distinct(s),
        0 <= i < s.len(),
    ensures
        entries_map(s).contains_key(s[i].key@),
        entries_map(s)[s[i].key@] == s[i].lock@,
    decreases s.len(),
{
    if i == s.len() - 1 {
        assert(s.last() == s[i]);
    } else {
        lemma_drop_last_distinct(s);
        assert(s.drop_last()[i] == s[i]);
        lemma_at(s.drop_last(), i);
        assert(s.last() == s[s.len() - 1]);
        assert(s.last().key@ != s[i].key@);
    }
}

/// Replacing the entry at position `i` by one with the same key view
/// rebinds exactly that key in the denoted map.
proof fn lemma_update<K: View, V>(s: Seq<Entry<K, V>>, i: int, e: Entry<K, V>)
    requires
        keys_distinct(s),
        0 <= i < s.len(),
        e.key@ == s[i].key@,
    ensures
        keys_distinct(s.update(i, e)),
        entries_map(s.update(i, e)) == entries_map(s).insert(e.key@, e.lock@),
    decreases s.len(),
{
    let s2 = s.update(i, e);
    assert forall|a: int, b: int| 0 <= a < b < s2.len() implies (#[trigger] s2[a]).key@
        != (#[trigger] s2[b]).key@ by {
        assert(s2[a].key@ == s[a].key@);
        assert(s2[b].key@ == s[b].key@);
    }
    if i == s.len() - 1 {
        assert(s2.last() == e);
        assert(s2.drop_last() =~= s.drop_last());
        assert(entries_map(s2) == entries_map(s.drop_last()).insert(e.key@, e.lock@));
        assert(entries_map(s) == entries_map(s.drop_last()).insert(s.last().key@, s.last().lock@));
        assert(entries_map(s).insert(e.key@, e.lock@) =~= entries_map(s2));
    } else {
        lemma_drop_last_distinct(s);
        assert(s.drop_last()[i] == s[i]);
        lemma_update(s.drop_last(), i, e);
        assert(s2.drop_last() =~= s.drop_last().update(i, e));
        assert(s2.last() == s.last());
        assert(s.last() == s[s.len() - 1]);
        assert(s.last().key@ != e.key@);
        assert(entries_map(s2) == entries_map(s.drop_last()).insert(e.key@, e.lock@).insert(
            s.last().key@,
            s.last().lock@,
        ));
        assert(entries_map(s).insert(e.key@, e.lock@) == entries_map(s.drop_last()).insert(
            s.last().key@,
            s.last().lock@,
        ).insert(e.key@, e.lock@));
        assert(entries_map(s.drop_last()).insert(e.key@, e.lock@).insert(s.last().key@, s.last().lock@)
            =~= entries_map(s.drop_last()).insert(s.last().key@, s.last().lock@).insert(
            e.key@,
            e.lock@,
        ));
    }
}

/// Appending an entry for a key carried by no existing entry extends the
/// denoted map by exactly that binding, and keeps the keys distinct.
proof fn lemma_push<K: View, V>(s: Seq<Entry<K, V>>, e: Entry<K, V>)
    requires
        keys_distinct(s),
        forall|j: int| 0 <= j < s.len() ==> (#[trigger] s[j]).key@ != e.key@,
    ensures
        keys_distinct(s.push(e)),
        entries_map(s.push(e)) == entries_map(s).insert(e.key@, e.lock@),
{
    let s2 = s.push(e);
    assert forall|a: int, b: int| 0 <= a < b < s2.len() implies (#[trigger] s2[a]).key@
        != (#[trigger] s2[b]).key@ by {
        assert(s2[a] == s[a]);
        if b < s.len() {
            assert(s2[b] == s[b]);
        } else {
            assert(s2[b] == e);
        }
    }
    assert(s2.drop_last() =~= s);
    assert(s2.last() == e);
}

/// Removing the entry at position `i` removes exactly its key's binding
/// from the denoted map, and keeps the keys distinct.
proof fn lemma_remove_at<K: View, V>(s: Seq<Entry<K, V>>, i: int)
    requires
        keys_distinct(s),
        0 <= i < s.len(),
    ensures
        keys_distinct(s.remove(i)),
        entries_map(s.remove(i)) == entries_map(s).remove(s[i].key@),
    decreases s.len(),
{
    let s2 = s.remove(i);
    let k = s[i].key@;
    s.remove_ensures(i);
    assert forall|a: int, b: int| 0 <= a < b < s2.len() implies (#[trigger] s2[a]).key@
        != (#[trigger] s2[b]).key@ by {
        let a0 = if a < i { a } else { a + 1 };
        let b0 = if b < i { b } else { b + 1 };
        assert(s2[a] == s[a0]);
        assert(s2[b] == s[b0]);
    }
    if i == s.len() - 1 {
        assert(s2 =~= s.drop_last());
        lemma_drop_last_distinct(s);
        assert forall|j: int| 0 <= j < s.drop_last().len() implies (#[trigger] s.drop_last()[j]).key@
            != k by {
            assert(s.drop_last()[j] == s[j]);
            assert(s[j].key@ != s[i].key@);
        }
        lemma_absent(s.drop_last(), k);
        assert(s.last() == s[i]);
        assert(entries_map(s) == entries_map(s.drop_last()).insert(k, s.last().lock@));
        assert(entries_map(s).remove(k) =~= entries_map(s.drop_last()));
    } else {
        lemma_drop_last_distinct(s);
        assert(s.drop_last()[i] == s[i]);
        lemma_remove_at(s.drop_last(), i);
        assert(s2.last() == s[s.len() - 1]);
        assert(s.last() == s[s.len() - 1]);
        assert(s2.drop_last() =~= s.drop_last().remove(i));
        assert(s.last().key@ != k);
        assert(entries_map(s2) == entries_map(s.drop_last()).remove(k).insert(
            s.last().key@,
            s.last().lock@,
        ));
        assert(entries_map(s).remove(k) == entries_map(s.drop_last()).insert(
            s.last().key@,
            s.last().lock@,
        ).remove(k));
        assert(entries_map(s.drop_last()).remove(k).insert(s.last().key@, s.last().lock@)
            =~= entries_map(s.drop_last()).insert(s.last().key@, s.last().lock@).remove(k));
    }
}

impl<K: SessionKey, V: SessionValue> HashSessionStore<K, V> {
    /// Create a new, empty store.
    pub fn new() -> (s: Self)
        ensures
            s.wf(),
            s.contents() == Map::<K::V, V>::empty(),
    {
        HashSessionStore { entries: Vec::new() }
    }

    /// The position of the entry carrying `key`, in one pass over the
    /// table: `Some` exactly when the key is present.
    fn position_of(&self, key: &K) -> (r: Option<usize>)
        ensures
            match r {
                Some(i) => i < self.entries@.len() && self.entries@[i as int].key@ == key@,
                None => forall|j: int|
                    0 <= j < self.entries@.len() ==> (#[trigger] self.entries@[j]).key@ != key@,
            },
    {
        let mut i: usize = 0;
        while i < self.entries.len()
            invariant
                i <= self.entries@.len(),
                forall|j: int| 0 <= j < i ==> (#[trigger] self.entries@[j]).key@ != key@,
            decreases self.entries@.len() - i,
        {
            if self.entries[i].key.eq_key(key) {
                return Some(i);
            }
            i = i + 1;
        }
        None
    }
}

impl<K: SessionKey, V: SessionValue> SessionStore<K, V> for HashSessionStore<K, V> {
    /// The denoted map of the entry table.
    closed spec fn contents(self) -> Map<K::V, V> {
        entries_map(self.entries@)
    }

    /// Each session has exactly one entry.
    closed spec fn wf(self) -> bool {
        keys_distinct(self.entries@)
    }

    fn insert(&mut self, key: &K, value: V) {
        match self.position_of(key) {
            Some(i) => {
                proof {
                    lemma_at(self.entries@, i as int);
                }
            },
            None => {
                proof {
                    lemma_absent(self.entries@, key@);
                }
                let entry = Entry { key: key.dup_key(), lock: EntryLock::new(value) };
                proof {
                    lemma_push(self.entries@, entry);
                }
                self.entries.push(entry);
            },
        }
    }

    fn find(&self, key: &K) -> (r: Option<V>) {
        match self.position_of(key) {
            Some(i) => {
                proof {
                    lemma_at(self.entries@, i as int);
                }
                Some(self.entries[i].lock.read())
            },
            None => {
                proof {
                    lemma_absent(self.entries@, key@);
                }
                None
            },
        }
    }

    fn swap(&mut self, key: &K, value: V) -> (r: Option<V>) {
        match self.position_of(key) {
            Some(i) => {
                proof {
                    lemma_at(self.entries@, i as int);
                }
                let ghost s0 = self.entries@;
                let e = &mut self.entries[i];
                let prev = e.lock.replace(value);
                proof {
                    lemma_update(s0, i as int, self.entries@[i as int]);
                    assert(self.entries@ =~= s0.update(i as int, self.entries@[i as int]));
                }
                Some(prev)
            },
            None => {
                proof {
                    lemma_absent(self.entries@, key@);
                }
                let entry = Entry { key: key.dup_key(), lock: EntryLock::new(value) };
                proof {
                    lemma_push(self.entries@, entry);
                }
                self.entries.push(entry);
                None
            },
        }
    }

    fn upsert<F: Fn(V) -> V>(&mut self, key: &K, value: V, mutator: F) -> (r: V) {
        match self.position_of(key) {
            Some(i) => {
                proof {
                    lemma_at(self.entries@, i as int);
                }
                let ghost s0 = self.entries@;
                let current = self.entries[i].lock.read();
                let updated = mutator(current);
                let result = updated.dup_value();
                let e = &mut self.entries[i];
                let _ = e.lock.replace(updated);
                proof {
                    lemma_update(s0, i as int, self.entries@[i as int]);
                    assert(self.entries@ =~= s0.update(i as int, self.entries@[i as int]));
                }
                result
            },
            None => {
                proof {
                    lemma_absent(self.entries@, key@);
                }
                let stored = value.dup_value();
                let entry = Entry { key: key.dup_key(), lock: EntryLock::new(stored) };
                proof {
                    lemma_push(self.entries@, entry);
                }
                self.entries.push(entry);
                value
            },
        }
    }

    fn remove(&mut self, key: &K) -> (r: bool) {
        match self.position_of(key) {
            Some(i) => {
                proof {
                    lemma_at(self.entries@, i as int);
                    lemma_remove_at(self.entries@, i as int);
                }
                let _ = self.entries.remove(i);
                true
            },
            None => {
                proof {
                    lemma_absent(self.entries@, key@);
                    assert(entries_map(self.entries@).remove(key@) =~= entries_map(
                        self.entries@,
                    ));
                }
                false
            },
        }
    }
}

} // verus!
