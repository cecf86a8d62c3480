//! The session store contract.
//!
//! A store maps session keys to values. Its observable state is the spec-level
//! map returned by [`SessionStore::contents`], and every operation says in its
//! contract how it reads or rewrites that map. The model functions below give
//! the outcome of each operation once, so that the contracts, the laws in
//! [`laws`], and any alternative store implementation all speak the same
//! language.

use vstd::prelude::*;

use self::session::Session;

pub mod entrylock;
pub mod hashsession;
pub mod laws;
pub mod session;

verus! {

/// What `find` observes: the value stored under `k`, if any.
pub open spec fn lookup<K, V>(m: Map<K, V>, k: K) -> Option<V> {
    if m.contains_key(k) {
        Some(m[k])
    } else {
        None
    }
}

/// The map after `insert(k, v)`: a binding is created only when `k` is
/// absent; an existing binding is left untouched.
pub open spec fn after_insert<K, V>(m: Map<K, V>, k: K, v: V) -> Map<K, V> {
    if m.contains_key(k) {
        m
    } else {
        m.insert(k, v)
    }
}

/// The map after `swap(k, v)` — and also after `upsert(k, ..)` with final
/// value `v`: the binding for `k` is unconditionally `v`.
pub open spec fn after_swap<K, V>(m: Map<K, V>, k: K, v: V) -> Map<K, V> {
    m.insert(k, v)
}

/// The map after `remove(k)`: no binding for `k`, all others untouched.
pub open spec fn after_remove<K, V>(m: Map<K, V>, k: K) -> Map<K, V> {
    m.remove(k)
}

/// What a store asks of a key type: keys are compared and duplicated, and
/// both operations respect the key's abstract value. Two keys with equal
/// views name the same session.
pub trait SessionKey: View + Sized {
    /// Decide whether `self` and `other` name the same session.
    fn eq_key(&self, other: &Self) -> (r: bool)
        ensures
            r <==> self@ == other@,
    ;

    /// An exact duplicate of the key, for storing it inside the store.
    fn dup_key(&self) -> (r: Self)
        ensures
            r@ == self@,
    ;
}

/// What a store asks of a value type: the store owns the stored value and
/// hands out exact duplicates of it, never references into its entries.
pub trait SessionValue: Sized {
    /// An exact duplicate of the value.
    fn dup_value(&self) -> (r: Self)
        ensures
            r == *self,
    ;
}

/// The contract of a session store. `contents` is the abstract state: the map
/// from key views to stored values. `wf` is whatever structural invariant the
/// implementation maintains; every operation preserves it.
pub trait SessionStore<K: View, V>: Sized {
    /// The sessions currently present, as a map from key view to value.
    spec fn contents(self) -> Map<K::V, V>;

    /// The implementation's structural invariant.
    spec fn wf(self) -> bool;

    /// Set the value of the session belonging to `key`, if that session has
    /// no value yet. An existing value is left untouched.
    fn insert(&mut self, key: &K, value: V)
        requires
            old(self).wf(),
        ensures
            final(self).wf(),
            final(self).contents() == after_insert(old(self).contents(), key@, value),
    ;

    /// Retrieve the value of the session belonging to `key`, or `None` if
    /// that session has not been set.
    fn find(&self, key: &K) -> (r: Option<V>)
        requires
            self.wf(),
        ensures
            r == lookup(self.contents(), key@),
    ;

    /// Swap `value` with the current value of the session belonging to
    /// `key`. Returns the value being replaced, or `None` if the session was
    /// not yet set.
    fn swap(&mut self, key: &K, value: V) -> (r: Option<V>)
        requires
            old(self).wf(),
        ensures
            final(self).wf(),
            final(self).contents() == after_swap(old(self).contents(), key@, value),
            r == lookup(old(self).contents(), key@),
    ;

    /// Insert `value` if the session belonging to `key` is not yet set;
    /// otherwise store `mutator` applied to the current value. The mutator is
    /// not invoked when the session is absent. Returns the value the session
    /// holds afterwards.
    fn upsert<F: Fn(V) -> V>(&mut self, key: &K, value: V, mutator: F) -> (r: V)
        requires
            old(self).wf(),
            old(self).contents().contains_key(key@) ==> call_requires(
                mutator,
                (old(self).contents()[key@],),
            ),
        ensures
            final(self).wf(),
            final(self).contents() == after_swap(old(self).contents(), key@, r),
            old(self).contents().contains_key(key@) ==> call_ensures(
                mutator,
                (old(self).contents()[key@],),
                r,
            ),
            !old(self).contents().contains_key(key@) ==> r == value,
    ;

    /// Remove the session belonging to `key`. Returns whether a session was
    /// there to remove.
    fn remove(&mut self, key: &K) -> (r: bool)
        requires
            old(self).wf(),
        ensures
            final(self).wf(),
            final(self).contents() == after_remove(old(self).contents(), key@),
            r == old(self).contents().contains_key(key@),
    ;

    /// Produce the handle through which request code reaches the session
    /// belonging to `key`.
    fn select_session(&self, key: K) -> (s: Session<K>)
        ensures
            s@ == key@,
    {
        Session::new(key)
    }
}

impl SessionKey for u64 {
    fn eq_key(&self, other: &Self) -> (r: bool) {
        *self == *other
    }

    fn dup_key(&self) -> (r: Self) {
        *self
    }
}

impl SessionKey for usize {
    fn eq_key(&self, other: &Self) -> (r: bool) {
        *self == *other
    }

    fn dup_key(&self) -> (r: Self) {
        *self
    }
}

impl SessionKey for char {
    fn eq_key(&self, other: &Self) -> (r: bool) {
        *self == *other
    }

    fn dup_key(&self) -> (r: Self) {
        *self
    }
}

impl SessionKey for String {
    fn eq_key(&self, other: &Self) -> (r: bool) {
        *self == *other
    }

    fn dup_key(&self) -> (r: Self) {
        self.clone()
    }
}

impl SessionValue for u64 {
    fn dup_value(&self) -> (r: Self) {
        *self
    }
}

impl SessionValue for i64 {
    fn dup_value(&self) -> (r: Self) {
        *self
    }
}

impl SessionValue for bool {
    fn dup_value(&self) -> (r: Self) {
        *self
    }
}

impl SessionValue for char {
    fn dup_value(&self) -> (r: Self) {
        *self
    }
}

impl SessionValue for String {
    fn dup_value(&self) -> (r: Self) {
        self.clone()
    }
}

} // verus!
