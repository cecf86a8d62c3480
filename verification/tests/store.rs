//! The store operations, exercised through `HashSessionStore`.

use session::HashSessionStore;
use session::SessionStore;

#[test]
fn find_on_new_store_is_none() {
    let store = HashSessionStore::<char, char>::new();
    assert_eq!(store.find(&'a'), None);
}

#[test]
fn insert_then_find() {
    let mut store = HashSessionStore::<char, char>::new();
    store.insert(&'a', 'x');
    assert_eq!(store.find(&'a'), Some('x'));
}

#[test]
fn insert_does_not_overwrite() {
    let mut store = HashSessionStore::<char, char>::new();
    store.insert(&'a', 'x');
    store.insert(&'a', 'y');
    assert_eq!(store.find(&'a'), Some('x'));
}

#[test]
fn swap_on_empty_store_returns_none_and_installs() {
    let mut store = HashSessionStore::<char, char>::new();
    assert_eq!(store.swap(&'a', 'y'), None);
    assert_eq!(store.find(&'a'), Some('y'));
}

#[test]
fn swap_twice_returns_previous_value() {
    let mut store = HashSessionStore::<char, char>::new();
    assert_eq!(store.swap(&'a', 'x'), None);
    assert_eq!(store.swap(&'a', 'y'), Some('x'));
    assert_eq!(store.find(&'a'), Some('y'));
}

#[test]
fn upsert_twice_from_empty() {
    let mut store = HashSessionStore::<char, u64>::new();
    let first = store.upsert(&'a', 0, |v| v + 1);
    assert_eq!(first, 0);
    let second = store.upsert(&'a', 0, |v| v + 1);
    assert_eq!(second, 1);
    assert_eq!(store.find(&'a'), Some(1));
}

#[test]
fn upsert_on_absent_key_does_not_invoke_mutator() {
    let mut store = HashSessionStore::<char, u64>::new();
    let got = store.upsert(&'a', 7, |_v| panic!("mutator invoked for an absent key"));
    assert_eq!(got, 7);
    assert_eq!(store.find(&'a'), Some(7));
}

#[test]
fn upsert_on_present_key_stores_mutated_value() {
    let mut store = HashSessionStore::<char, u64>::new();
    store.insert(&'a', 20);
    let got = store.upsert(&'a', 0, |v| v * 2);
    assert_eq!(got, 40);
    assert_eq!(store.find(&'a'), Some(40));
}

#[test]
fn remove_reports_presence_and_clears() {
    let mut store = HashSessionStore::<char, char>::new();
    store.insert(&'a', 'x');
    assert!(store.remove(&'a'));
    assert_eq!(store.find(&'a'), None);
    assert!(!store.remove(&'a'));
}

#[test]
fn remove_on_empty_store_is_false() {
    let mut store = HashSessionStore::<char, char>::new();
    assert!(!store.remove(&'a'));
}

#[test]
fn key_can_be_set_again_after_remove() {
    let mut store = HashSessionStore::<char, char>::new();
    store.insert(&'a', 'x');
    assert!(store.remove(&'a'));
    store.insert(&'a', 'y');
    assert_eq!(store.find(&'a'), Some('y'));
}

#[test]
fn operations_on_one_key_leave_others_untouched() {
    let mut store = HashSessionStore::<char, u64>::new();
    store.insert(&'a', 1);
    store.insert(&'b', 2);
    store.insert(&'c', 3);
    assert_eq!(store.swap(&'b', 20), Some(2));
    assert_eq!(store.upsert(&'c', 0, |v| v + 30), 33);
    assert!(store.remove(&'a'));
    assert_eq!(store.find(&'a'), None);
    assert_eq!(store.find(&'b'), Some(20));
    assert_eq!(store.find(&'c'), Some(33));
}

#[test]
fn remove_middle_entry_keeps_the_rest() {
    let mut store = HashSessionStore::<u64, u64>::new();
    store.insert(&1, 10);
    store.insert(&2, 20);
    store.insert(&3, 30);
    assert!(store.remove(&2));
    assert_eq!(store.find(&1), Some(10));
    assert_eq!(store.find(&2), None);
    assert_eq!(store.find(&3), Some(30));
}

#[test]
fn string_keys_and_values() {
    let mut store = HashSessionStore::<String, String>::new();
    let alice = String::from("alice");
    let bob = String::from("bob");
    store.insert(&alice, String::from("first"));
    assert_eq!(store.find(&alice), Some(String::from("first")));
    assert_eq!(store.find(&bob), None);
    assert_eq!(store.swap(&alice, String::from("second")), Some(String::from("first")));
    assert_eq!(store.find(&alice), Some(String::from("second")));
    let mangled = store.upsert(&alice, String::new(), |v| format!("{}!", v));
    assert_eq!(mangled, String::from("second!"));
    assert!(store.remove(&alice));
    assert_eq!(store.find(&alice), None);
}

#[test]
fn equal_string_keys_name_the_same_session() {
    let mut store = HashSessionStore::<String, u64>::new();
    store.insert(&String::from("peer"), 1);
    assert_eq!(store.find(&String::from("peer")), Some(1));
    assert_eq!(store.swap(&String::from("peer"), 2), Some(1));
}
