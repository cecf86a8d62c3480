//! A process-local keyed session store.
//!
//! The crate keeps one mutable value per session key and proves, against a
//! mathematical map model, exactly what each operation stores and returns:
//!
//! - [`HashSessionStore`] is the keyed container with the five operations
//!   `insert` (create-if-absent), `find`, `swap`, `upsert` and `remove`;
//! - [`SessionStore`] is the contract those operations satisfy, so hosts can
//!   supply their own store;
//! - [`Session`] is a lightweight handle that binds one key to the store's
//!   operations;
//! - [`Sessions`] composes a key generator with a store and hands out one
//!   handle per request context.

pub mod sessions;
pub mod sessionstore;

pub use sessions::RequestSession;
pub use sessions::Sessions;
pub use sessionstore::SessionKey;
pub use sessionstore::SessionStore;
pub use sessionstore::SessionValue;
pub use sessionstore::entrylock::EntryLock;
pub use sessionstore::hashsession::HashSessionStore;
pub use sessionstore::session::Session;
