use std::collections::HashMap;

use niri_screencast::assoc::{owned_keys, Assoc, Key, Owned};

#[test]
fn keys_have_one_value() {
    let mut map: Assoc<String, u8> = Assoc::new();
    map.insert("a".to_owned(), 1);
    map.insert("b".to_owned(), 2);
    map.insert("a".to_owned(), 3);
    assert_eq!(map.get(&"a".to_owned()), Some(&3));
    assert!(map.contains_key(&"b".to_owned()));
    assert_eq!(map.remove(&"b".to_owned()), Some(2));
    assert_eq!(map.remove(&"b".to_owned()), None);
    map.clear();
    assert!(!map.contains_key(&"a".to_owned()));
}

#[test]
fn bytes_are_keys() {
    let key: Vec<u8> = vec![1, 2, 3];
    assert!(key.same(&vec![1, 2, 3]));
    assert!(!key.same(&vec![1, 2]));
    assert!(!key.same(&vec![1, 2, 4]));
    assert_eq!(key.duplicate(), key);
}

#[test]
fn what_a_client_owns_is_listed_and_dropped() {
    let mut map: Assoc<String, String> = Assoc::new();
    for (path, owner) in [("/1", ":1.1"), ("/2", ":1.2"), ("/3", ":1.1"), ("/4", ":1.1")] {
        map.insert(path.to_owned(), owner.to_owned());
    }
    let mut paths = map.keys_of(":1.1");
    paths.sort();
    assert_eq!(paths, vec!["/1", "/3", "/4"]);
    assert!(map.keys_of(":1.3").is_empty());

    map.remove_owned(":1.1");
    assert!(map.keys_of(":1.1").is_empty());
    assert_eq!(map.keys_of(":1.2"), vec!["/2"]);
}

#[test]
fn owned_keys_are_found_in_a_hash_map() {
    let mut map: HashMap<u64, String> = HashMap::new();
    for id in 0..6 {
        map.insert(id, format!(":1.{}", id % 2));
    }
    let mut ids = owned_keys(&map, ":1.1");
    ids.sort();
    assert_eq!(ids, vec![1, 3, 5]);
    assert!(owned_keys(&map, ":1.2").is_empty());
    assert!(map[&1].belongs_to(":1.1"));
}
