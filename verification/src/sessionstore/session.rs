//! The per-key session handle.
//!
//! A [`Session`] fixes one key once, at construction, and re-exposes the
//! store operations with that key substituted, so request code never threads
//! keys by hand. The handle is a plain value: duplicating it (or building a
//! second one over the same key) yields handles that address the same
//! session of the same store.

use vstd::prelude::*;

use super::SessionKey;
use super::SessionStore;
use super::after_insert;
use super::after_remove;
use super::after_swap;
use super::lookup;

verus! {

/// A handle bound to one session key, providing the store's basic
/// operations with that key fixed.
pub struct Session<K> {
    key: K,
}

impl<K: View> View for Session<K> {
    type V = K::V;

    /// A handle is abstractly just the key it is bound to.
    closed spec fn view(&self) -> K::V {
        self.key@
    }
}

impl<K: SessionKey> Clone for Session<K> {
    /// A duplicate handle, bound to the same session: one handle per
    /// downstream handler, all addressing one key.
    fn clone(&self) -> (s: Self)
        ensures
            s@ == self@,
    {
        Session { key: self.key.dup_key() }
    }
}

impl<K: View> Session<K> {
    /// Bind a new handle to `key`. The key is assigned exactly once, here.
    pub fn new(key: K) -> (s: Self)
        ensures
            s@ == key@,
    {
        Session { key }
    }

    /// Set the value of this session, if it has no value yet.
    pub fn insert<V, S: SessionStore<K, V>>(&self, store: &mut S, value: V)
        requires
            old(store).wf(),
        ensures
            final(store).wf(),
            final(store).contents() == after_insert(old(store).contents(), self@, value),
    {
        store.insert(&self.key, value)
    }

    /// Retrieve the value of this session, or `None` if it has not been set.
    pub fn find<V, S: SessionStore<K, V>>(&self, store: &S) -> (r: Option<V>)
        requires
            store.wf(),
        ensures
            r == lookup(store.contents(), self@),
    {
        store.find(&self.key)
    }

    /// Swap `value` with the current value of this session; returns the
    /// value being replaced, or `None` if the session was not yet set.
    pub fn swap<V, S: SessionStore<K, V>>(&self, store: &mut S, value: V) -> (r: Option<V>)
        requires
            old(store).wf(),
        ensures
            final(store).wf(),
            final(store).contents() == after_swap(old(store).contents(), self@, value),
            r == lookup(old(store).contents(), self@),
    {
        store.swap(&self.key, value)
    }

    /// Insert `value` if this session is not yet set, or store `mutator`
    /// applied to its current value; returns the value held afterwards.
    pub fn upsert<V, S: SessionStore<K, V>, F: Fn(V) -> V>(
        &self,
        store: &mut S,
        value: V,
        mutator: F,
    ) -> (r: V)
        requires
            old(store).wf(),
            old(store).contents().contains_key(self@) ==> call_requires(
                mutator,
                (old(store).contents()[self@],),
            ),
        ensures
            final(store).wf(),
            final(store).contents() == after_swap(old(store).contents(), self@, r),
            old(store).contents().contains_key(self@) ==> call_ensures(
                mutator,
                (old(store).contents()[self@],),
                r,
            ),
            !old(store).contents().contains_key(self@) ==> r == value,
    {
        store.upsert(&self.key, value, mutator)
    }

    /// Remove this session; returns whether a session was there to remove.
    pub fn remove<V, S: SessionStore<K, V>>(&self, store: &mut S) -> (r: bool)
        requires
            old(store).wf(),
        ensures
            final(store).wf(),
            final(store).contents() == after_remove(old(store).contents(), self@),
            r == old(store).contents().contains_key(self@),
    {
        store.remove(&self.key)
    }
}

} // verus!
