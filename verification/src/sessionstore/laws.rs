//! The algebra of the store operations.
//!
//! The operation contracts in [`super::SessionStore`] describe each step in
//! isolation, over the model functions of [`super`]. The laws here state how
//! the steps compose: what `find` observes after each way of writing, that
//! the first write under a key wins for `insert`, and that operations under
//! one key leave every other key's session untouched. Each law is proved
//! once, over the model, and therefore holds of every store that meets the
//! trait's contract.

use vstd::prelude::*;

use super::after_insert;
use super::after_remove;
use super::after_swap;
use super::lookup;

verus! {

/// A key that was never inserted has no value: `find` on any key misses an
/// empty store.
pub proof fn lemma_find_misses_empty<K, V>(k: K)
    ensures
        lookup(Map::<K, V>::empty(), k) is None,
{
}

/// `insert(k, v)` on a store where `k` is absent makes `find(k)` yield
/// `Some(v)`.
pub proof fn lemma_insert_then_find<K, V>(m: Map<K, V>, k: K, v: V)
    requires
        !m.contains_key(k),
    ensures
        lookup(after_insert(m, k, v), k) == Some(v),
{
}

/// `insert` never overwrites: after `insert(k, v1)` on a store where `k`
/// was absent, a second `insert(k, v2)` leaves `find(k)` at `Some(v1)`.
pub proof fn lemma_insert_keeps_first<K, V>(m: Map<K, V>, k: K, v1: V, v2: V)
    requires
        !m.contains_key(k),
    ensures
        lookup(after_insert(after_insert(m, k, v1), k, v2), k) == Some(v1),
{
}

/// Of any two `insert` attempts under the same absent key, exactly the
/// first creates the binding: the second attempt leaves the store — the
/// winner's value included — unchanged.
pub proof fn lemma_insert_single_winner<K, V>(m: Map<K, V>, k: K, v1: V, v2: V)
    requires
        !m.contains_key(k),
    ensures
        after_insert(after_insert(m, k, v1), k, v2) == after_insert(m, k, v1),
{
}

/// `swap(k, v)` on a store where `k` is absent returns `None` — `swap`
/// hands back what `find` would have seen — and leaves `find(k)` at
/// `Some(v)`.
pub proof fn lemma_swap_creates<K, V>(m: Map<K, V>, k: K, v: V)
    requires
        !m.contains_key(k),
    ensures
        lookup(m, k) is None,
        lookup(after_swap(m, k, v), k) == Some(v),
{
}

/// `swap(k, v1)` followed by `swap(k, v2)`: the second call returns
/// `Some(v1)` (its result is `lookup` of the state the first call left),
/// and `find(k)` then yields `Some(v2)`.
pub proof fn lemma_swap_returns_previous<K, V>(m: Map<K, V>, k: K, v1: V, v2: V)
    ensures
        lookup(after_swap(m, k, v1), k) == Some(v1),
        lookup(after_swap(after_swap(m, k, v1), k, v2), k) == Some(v2),
{
}

/// `upsert(k, d, f)` on a store where `k` is absent stores the default
/// unchanged — its contract returns `d` and does not invoke `f` — so
/// `find(k)` then yields `Some(d)`.
pub proof fn lemma_upsert_starts_from_default<K, V>(m: Map<K, V>, k: K, d: V)
    requires
        !m.contains_key(k),
    ensures
        lookup(after_swap(m, k, d), k) == Some(d),
{
}

/// `upsert(k, d, f)` on a store where `k` holds a value stores a result `r`
/// of `f` applied to that value — `call_ensures` is the witness — and
/// `find(k)` then yields exactly that result.
pub proof fn lemma_upsert_applies_mutator<K, V, F: Fn(V) -> V>(m: Map<K, V>, k: K, f: F, r: V)
    requires
        m.contains_key(k),
        call_ensures(f, (m[k],), r),
    ensures
        lookup(after_swap(m, k, r), k) == Some(r),
{
}

/// `remove(k)` leaves no binding: `find(k)` misses afterwards, and a second
/// `remove(k)` — whose result is whether a binding was present — returns
/// `false`.
pub proof fn lemma_remove_clears<K, V>(m: Map<K, V>, k: K)
    ensures
        lookup(after_remove(m, k), k) is None,
        !after_remove(m, k).contains_key(k),
{
}

/// Sessions are independent: an operation under `k1` — whichever of the
/// writing operations it is — leaves what `find` observes under any other
/// key `k2` untouched.
pub proof fn lemma_distinct_keys_independent<K, V>(m: Map<K, V>, k1: K, k2: K, v: V)
    requires
        k1 != k2,
    ensures
        lookup(after_insert(m, k1, v), k2) == lookup(m, k2),
        lookup(after_swap(m, k1, v), k2) == lookup(m, k2),
        lookup(after_remove(m, k1), k2) == lookup(m, k2),
{
}

} // verus!
