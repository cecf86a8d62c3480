//! Composition of a key generator with a session store.
//!
//! A host maps each request to a session key through a key generator — a
//! function from its request context to a key, deterministic per request
//! identity — and reaches the store only through the per-request [`Session`]
//! handle. [`Sessions`] ties the two together: constructed once, at startup,
//! with the generator and the store, it produces the handle for each request
//! context, and the host threads that handle through its request handling.

use vstd::prelude::*;

use core::marker::PhantomData;

use crate::sessionstore::session::Session;

verus! {

/// The sessioning front: a key generator paired with the session store the
/// generated keys select from.
///
/// The key generator should produce equal keys exactly for requests that
/// belong to the same session; under it, every handle this value hands out
/// addresses the session of the request it was made for.
pub struct Sessions<F, S> {
    /// Maps a request context to that request's session key.
    pub key_generator: F,
    /// The store the generated keys select sessions from.
    pub session_store: S,
}

impl<F, S> Sessions<F, S> {
    /// Pair `key_generator` with `store`.
    pub fn new(key_generator: F, store: S) -> (r: Self)
        ensures
            r.key_generator == key_generator,
            r.session_store == store,
    {
        Sessions { key_generator, session_store: store }
    }

    /// The handle for one request: generate the key for `context` and bind
    /// a [`Session`] to it. The handle's key is one the generator can
    /// produce for this context.
    pub fn session_for<C, K: View>(&self, context: &C) -> (s: Session<K>) where F: Fn(&C) -> K
        requires
            call_requires(self.key_generator, (context,)),
        ensures
            exists|k: K| #[trigger] call_ensures(self.key_generator, (context,), k) && s@ == k@,
    {
        let key = (self.key_generator)(context);
        Session::new(key)
    }
}

/// Marker type under which a host integration files the per-request
/// [`Session`] handle in its request-scoped extension map, one slot per key
/// type `K`.
pub struct RequestSession<K> {
    phantom: PhantomData<K>,
}

} // verus!
