use voxlinuxd::keyed::{Entry, KeyedStore};

#[test]
fn store_starts_empty() {
    let store: KeyedStore<u32> = KeyedStore::new();
    assert_eq!(store.get("a"), None);
    assert!(!store.contains_key("a"));
    assert!(store.to_vec().is_empty());
}

#[test]
fn insert_then_get() {
    let mut store: KeyedStore<u32> = KeyedStore::new();
    store.insert("a".to_string(), 1);
    store.insert("b".to_string(), 2);
    assert_eq!(store.get("a"), Some(1));
    assert_eq!(store.get("b"), Some(2));
    assert_eq!(store.get("c"), None);
    assert!(store.contains_key("b"));
}

#[test]
fn insert_replaces_the_value() {
    let mut store: KeyedStore<u32> = KeyedStore::new();
    store.insert("a".to_string(), 1);
    store.insert("a".to_string(), 7);
    assert_eq!(store.get("a"), Some(7));
    assert_eq!(store.to_vec().len(), 1);
}

#[test]
fn remove_takes_only_the_key() {
    let mut store: KeyedStore<u32> = KeyedStore::new();
    store.insert("a".to_string(), 1);
    store.insert("b".to_string(), 2);
    store.insert("c".to_string(), 3);
    store.remove("b");
    assert_eq!(store.get("a"), Some(1));
    assert_eq!(store.get("b"), None);
    assert_eq!(store.get("c"), Some(3));
    store.remove("zzz");
    assert_eq!(store.to_vec().len(), 2);
}

#[test]
fn keys_are_compared_by_their_characters() {
    let mut store: KeyedStore<u8> = KeyedStore::new();
    store.insert("ab".to_string(), 1);
    assert_eq!(store.get("a"), None);
    assert_eq!(store.get("abc"), None);
    assert_eq!(store.get("AB"), None);
    assert_eq!(store.get("ab"), Some(1));
    store.insert("\u{e9}t\u{e9}".to_string(), 2);
    assert_eq!(store.get("\u{e9}t\u{e9}"), Some(2));
    assert_eq!(store.get("ete"), None);
}

#[test]
fn to_vec_lists_each_key_once_in_insertion_order() {
    let mut store: KeyedStore<u32> = KeyedStore::new();
    store.insert("x".to_string(), 1);
    store.insert("y".to_string(), 2);
    store.insert("x".to_string(), 3);
    let list = store.to_vec();
    let pairs: Vec<(String, u32)> = list.into_iter().map(|e| (e.key, e.value)).collect();
    assert_eq!(pairs, vec![("x".to_string(), 3), ("y".to_string(), 2)]);
}

#[test]
fn from_entries_replays_in_order() {
    let list = vec![
        Entry { key: "a".to_string(), value: 1u32 },
        Entry { key: "b".to_string(), value: 2 },
        Entry { key: "a".to_string(), value: 9 },
    ];
    let store = KeyedStore::from_entries(&list);
    assert_eq!(store.get("a"), Some(9));
    assert_eq!(store.get("b"), Some(2));
    assert_eq!(store.to_vec().len(), 2);
}
