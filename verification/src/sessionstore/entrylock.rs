//! The per-entry value container.
//!
//! An [`EntryLock`] owns exactly one value and exposes it only through
//! shared or exclusive access, so work on one key's value is isolated from
//! every other key's. In this verified core the two access modes are carried
//! by Rust's borrow discipline itself: a shared acquisition is a `&` borrow,
//! an exclusive acquisition a `&mut` borrow, and the contracts pin down what
//! each access returns and leaves behind.

use vstd::prelude::*;

use super::SessionValue;

verus! {

/// A single-value container, created at a key's first insertion and
/// destroyed when the key is removed.
pub struct EntryLock<V> {
    value: V,
}

impl<V> View for EntryLock<V> {
    type V = V;

    /// The container is abstractly the value it holds.
    closed spec fn view(&self) -> V {
        self.value
    }
}

impl<V> EntryLock<V> {
    /// Wrap `value` in a fresh container.
    pub fn new(value: V) -> (l: Self)
        ensures
            l@ == value,
    {
        EntryLock { value }
    }

    /// Shared access: a read-only view of the held value.
    pub fn borrow(&self) -> (r: &V)
        ensures
            *r == self@,
    {
        &self.value
    }

    /// Exclusive access: install `value` and hand back the value held
    /// before.
    pub fn replace(&mut self, value: V) -> (prev: V)
        ensures
            final(self)@ == value,
            prev == old(self)@,
    {
        let mut v = value;
        core::mem::swap(&mut self.value, &mut v);
        v
    }
}

impl<V: SessionValue> EntryLock<V> {
    /// Shared access: an exact duplicate of the held value.
    pub fn read(&self) -> (r: V)
        ensures
            r == self@,
    {
        self.value.dup_value()
    }
}

} // verus!
