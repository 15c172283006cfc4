use ui_overlay::lru::LruCache;

#[test]
fn test_lru() {
    let mut c = LruCache::new(2);
    c.put(1, "a");
    c.put(2, "b");
    assert_eq!(c.len(), 2);
    c.get(&1);
    c.put(3, "c");
    assert!(c.get(&2).is_none());
    assert!(c.get(&1).is_some());
    assert!(c.get(&3).is_some());
}

#[test]
fn lru_replaces_existing_key_and_zero_capacity_keeps_nothing() {
    let mut c = LruCache::new(2);
    c.put(1, 10);
    c.put(1, 11);
    assert_eq!(c.len(), 1);
    assert_eq!(c.get(&1), Some(&11));
    let mut z = LruCache::new(0);
    z.put(5, 1);
    assert_eq!(z.len(), 0);
    assert!(z.get(&5).is_none());
}
