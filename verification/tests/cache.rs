use minty_core::cache::Cache;
use minty_core::model::User;
use std::sync::Arc;

fn user(id: u128, name: &str) -> User {
    User { id, name: name.to_string(), email: format!("{name}@example.com"), admin: false }
}

#[test]
fn get_misses_on_an_empty_cache() {
    let cache = Cache::new();
    assert!(cache.get(1).is_none());
}

#[test]
fn get_after_insert_returns_the_same_snapshot() {
    let mut cache = Cache::new();
    let inserted = cache.insert(user(7, "ada"));
    let first = cache.get(7).unwrap();
    let second = cache.get(7).unwrap();
    assert!(Arc::ptr_eq(&inserted, &first));
    assert!(Arc::ptr_eq(&first, &second));
    assert_eq!(*first, user(7, "ada"));
}

#[test]
fn second_insert_is_discarded_in_favour_of_the_first() {
    let mut cache = Cache::new();
    let winner = cache.insert(user(7, "ada"));
    let loser = cache.insert(user(7, "ada the second"));
    assert!(Arc::ptr_eq(&winner, &loser));
    assert_eq!(loser.name, "ada");
    assert_eq!(cache.get(7).unwrap().name, "ada");
}

#[test]
fn invalidate_makes_the_next_get_miss() {
    let mut cache = Cache::new();
    cache.insert(user(7, "ada"));
    cache.invalidate(7);
    assert!(cache.get(7).is_none());
}

#[test]
fn insert_after_invalidate_gives_a_fresh_snapshot() {
    let mut cache = Cache::new();
    let stale = cache.insert(user(7, "ada"));
    cache.invalidate(7);
    let fresh = cache.insert(user(7, "ada lovelace"));
    assert!(!Arc::ptr_eq(&stale, &fresh));
    assert_eq!(cache.get(7).unwrap().name, "ada lovelace");
    assert_eq!(stale.name, "ada");
}

#[test]
fn identities_do_not_disturb_each_other() {
    let mut cache = Cache::new();
    let ada = cache.insert(user(7, "ada"));
    cache.insert(user(8, "grace"));
    cache.invalidate(8);
    assert!(Arc::ptr_eq(&ada, &cache.get(7).unwrap()));
    assert!(cache.get(8).is_none());
}

#[test]
fn invalidate_of_an_absent_identity_changes_nothing() {
    let mut cache = Cache::new();
    cache.insert(user(7, "ada"));
    cache.invalidate(9);
    assert_eq!(cache.get(7).unwrap().id, 7);
}
