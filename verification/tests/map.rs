use hash_on_write::Borrowed;
use hash_on_write::How;
use hash_on_write::HowMap;

#[test]
fn test_hash_map() {
    let mut map: HowMap<&'static str, i32> = HowMap::new();

    let a: How<&str> = "a".into();

    assert!(map.insert(a.clone(), 1).is_none());
    assert!(map.insert("b".into(), 2).is_none());
    assert!(map.insert("c".into(), 3).is_none());

    assert_eq!(map.insert(a.clone(), -1), Some(1));
    assert_eq!(map.insert("b".into(), -2), Some(2));
    assert_eq!(map.insert("c".into(), -3), Some(3));

    assert_eq!(map.get_with(&a), Some(&-1));
    assert_eq!(map.get(&Borrowed::new("a")), Some(&-1));
    assert_eq!(map.get(&Borrowed::new("b")), Some(&-2));
    assert_eq!(map.get(&Borrowed::new("c")), Some(&-3));

    let x: HowMap<String, ()> = HowMap::new();
    assert!(x.get(&Borrowed::new(String::from("a"))).is_none());
}

#[test]
fn test_map_missing() {
    let mut map: HowMap<&'static str, i32> = HowMap::new();
    map.insert(How::new_default("a"), 1);
    map.insert(How::new_default("b"), 2);
    map.insert(How::new_default("c"), 3);
    assert_eq!(map.get(&Borrowed::new("z")), None);
    assert_eq!(map.len(), 3);
}

#[test]
fn test_map_hashed_keys() {
    // Keys inserted with their caches already populated: lookups then skip
    // non-matching keys by code alone, and matches still land correctly.
    let mut map: HowMap<&'static str, i32> = HowMap::new();
    for (k, v) in [("a", 1), ("b", 2), ("c", 3)] {
        let mut key = How::new_default(k);
        How::make_hash(&mut key);
        assert!(map.insert(key, v).is_none());
    }

    let mut replacement = How::new_default("b");
    How::make_hash(&mut replacement);
    assert_eq!(map.insert(replacement, -2), Some(2));

    assert_eq!(map.get(&Borrowed::new("a")), Some(&1));
    assert_eq!(map.get(&Borrowed::new("b")), Some(&-2));
    assert_eq!(map.get(&Borrowed::new("c")), Some(&3));
    assert_eq!(map.get(&Borrowed::new("d")), None);
}

#[test]
fn test_map_u64_keys() {
    let mut m: HowMap<u64, i32> = HowMap::new();
    assert_eq!(m.len(), 0);
    assert!(m.insert(How::new_default(3), 30).is_none());
    assert_eq!(m.insert(How::new_default(3), 31), Some(30));
    assert_eq!(m.len(), 1);
    assert_eq!(m.get(&Borrowed::new(3)), Some(&31));
    assert_eq!(m.get(&Borrowed::new(4)), None);
}
