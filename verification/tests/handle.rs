//! The per-key handle and the key-generator composition.

use session::EntryLock;
use session::HashSessionStore;
use session::Session;
use session::SessionStore;
use session::Sessions;

#[test]
fn handle_fixes_one_key() {
    let mut store = HashSessionStore::<char, char>::new();
    let handle = Session::new('a');
    assert_eq!(handle.find(&store), None);
    handle.insert(&mut store, 'x');
    assert_eq!(handle.find(&store), Some('x'));
    assert_eq!(store.find(&'a'), Some('x'));
    assert_eq!(store.find(&'b'), None);
}

#[test]
fn handle_delegates_every_operation() {
    let mut store = HashSessionStore::<char, u64>::new();
    let handle = Session::new('a');
    handle.insert(&mut store, 1);
    handle.insert(&mut store, 2);
    assert_eq!(handle.find(&store), Some(1));
    assert_eq!(handle.swap(&mut store, 5), Some(1));
    assert_eq!(handle.upsert(&mut store, 0, |v| v + 1), 6);
    assert!(handle.remove(&mut store));
    assert_eq!(handle.find(&store), None);
    assert!(!handle.remove(&mut store));
}

#[test]
fn two_handles_on_one_key_share_the_session() {
    let mut store = HashSessionStore::<u64, u64>::new();
    let first = Session::new(7);
    let second = Session::new(7);
    first.insert(&mut store, 40);
    assert_eq!(second.upsert(&mut store, 0, |v| v + 2), 42);
    assert_eq!(first.find(&store), Some(42));
}

#[test]
fn handles_on_distinct_keys_are_independent() {
    let mut store = HashSessionStore::<u64, u64>::new();
    let left = Session::new(1);
    let right = Session::new(2);
    left.insert(&mut store, 10);
    right.insert(&mut store, 20);
    assert_eq!(left.swap(&mut store, 11), Some(10));
    assert!(right.remove(&mut store));
    assert_eq!(left.find(&store), Some(11));
    assert_eq!(right.find(&store), None);
}

#[test]
fn select_session_binds_the_given_key() {
    let mut store = HashSessionStore::<char, char>::new();
    store.insert(&'a', 'x');
    let handle = store.select_session('a');
    assert_eq!(handle.find(&store), Some('x'));
}

#[test]
fn sessions_hands_out_handles_per_context() {
    fn peer_key(request: &(u64, u64)) -> u64 {
        request.0
    }
    let mut sessions = Sessions::new(peer_key, HashSessionStore::<u64, u64>::new());
    let first = sessions.session_for(&(7, 100));
    let again = sessions.session_for(&(7, 200));
    let other = sessions.session_for(&(8, 100));
    first.insert(&mut sessions.session_store, 1);
    assert_eq!(again.find(&sessions.session_store), Some(1));
    assert_eq!(other.find(&sessions.session_store), None);
    assert_eq!(again.upsert(&mut sessions.session_store, 0, |v| v + 1), 2);
    assert_eq!(first.find(&sessions.session_store), Some(2));
}

#[test]
fn cloned_handle_addresses_the_same_session() {
    let mut store = HashSessionStore::<String, u64>::new();
    let handle = Session::new(String::from("peer"));
    let downstream = handle.clone();
    handle.insert(&mut store, 5);
    assert_eq!(downstream.find(&store), Some(5));
    assert_eq!(downstream.swap(&mut store, 6), Some(5));
    assert_eq!(handle.find(&store), Some(6));
}

#[test]
fn entry_lock_holds_one_value() {
    let mut lock = EntryLock::new('x');
    assert_eq!(*lock.borrow(), 'x');
    assert_eq!(lock.read(), 'x');
    assert_eq!(lock.replace('y'), 'x');
    assert_eq!(lock.read(), 'y');
}
