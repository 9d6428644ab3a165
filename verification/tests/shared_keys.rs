use coinstr::event::{EventId, SharedKey};
use coinstr::shared_keys::SharedKeyCache;

fn id(text: &str) -> EventId {
    EventId::new(text.to_string())
}

fn key(tag: &str) -> SharedKey {
    SharedKey { secret_key: Some(format!("secret-{tag}")), public_key: format!("public-{tag}") }
}

#[test]
fn new_cache_is_empty() {
    let cache = SharedKeyCache::new();
    assert_eq!(cache.len(), 0);
    assert!(!cache.contains(&id("abc")));
    assert_eq!(cache.get(&id("abc")), None);
}

#[test]
fn inserted_key_is_found_under_its_identifier_only() {
    let mut cache = SharedKeyCache::new();
    cache.insert(id("abc"), key("1"));
    assert!(cache.contains(&id("abc")));
    assert_eq!(cache.get(&id("abc")), Some(&key("1")));
    assert!(!cache.contains(&id("ab")));
    assert!(!cache.contains(&id("abcd")));
    assert!(!cache.contains(&id("ABC")));
    assert_eq!(cache.len(), 1);
}

#[test]
fn insert_replaces_the_key_of_the_same_identifier() {
    let mut cache = SharedKeyCache::new();
    cache.insert(id("abc"), key("1"));
    cache.insert(id("def"), key("2"));
    cache.insert(id("abc"), key("3"));
    assert_eq!(cache.len(), 2);
    assert_eq!(cache.get(&id("abc")), Some(&key("3")));
    assert_eq!(cache.get(&id("def")), Some(&key("2")));
}

#[test]
fn cache_from_pairs_holds_each_pair() {
    let cache = SharedKeyCache::from_pairs(vec![
        (id("a"), key("1")),
        (id("b"), key("2")),
        (id("c"), key("3")),
    ]);
    assert_eq!(cache.len(), 3);
    assert_eq!(cache.get(&id("a")), Some(&key("1")));
    assert_eq!(cache.get(&id("b")), Some(&key("2")));
    assert_eq!(cache.get(&id("c")), Some(&key("3")));
    assert_eq!(cache.get(&id("d")), None);
}

#[test]
fn later_pair_wins_over_an_earlier_one() {
    let cache = SharedKeyCache::from_pairs(vec![
        (id("a"), key("1")),
        (id("b"), key("2")),
        (id("a"), key("3")),
    ]);
    assert_eq!(cache.len(), 2);
    assert_eq!(cache.get(&id("a")), Some(&key("3")));
}

#[test]
fn cache_from_no_pairs_is_empty() {
    assert_eq!(SharedKeyCache::from_pairs(Vec::new()).len(), 0);
}

#[test]
fn identifiers_compare_by_spelling() {
    assert!(id("abc").same(&id("abc")));
    assert!(!id("abc").same(&id("abd")));
    assert!(!id("abc").same(&id("")));
    assert_eq!(id("abc").clone(), id("abc"));
    assert_eq!(id("abc").as_str(), "abc");
    assert_eq!(key("1").clone(), key("1"));
}
