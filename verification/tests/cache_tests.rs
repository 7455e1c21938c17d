use hinjaku::cache::{key_to_index, make_cache_key, PendingSet, TextureCache, CACHE_MAX};

#[test]
fn cache_key_has_index_colon_name() {
    assert_eq!(make_cache_key(12, "page01.jpg"), "12:page01.jpg");
    assert_eq!(make_cache_key(0, ""), "0:");
}

#[test]
fn key_index_reads_back_what_was_written() {
    for i in [0usize, 1, 9, 10, 12345, usize::MAX] {
        assert_eq!(key_to_index(&make_cache_key(i, "a:b.png")), i);
    }
}

#[test]
fn key_index_of_unreadable_keys_is_zero() {
    assert_eq!(key_to_index("abc"), 0);
    assert_eq!(key_to_index(":7"), 0);
    assert_eq!(key_to_index(""), 0);
    assert_eq!(key_to_index("-3:x"), 0);
    assert_eq!(key_to_index("99999999999999999999999:x"), 0);
}

#[test]
fn key_index_follows_str_parse() {
    assert_eq!(key_to_index("+7:x"), 7);
    assert_eq!(key_to_index("42"), 42);
    assert_eq!(key_to_index("007:x"), 7);
}

#[test]
fn pending_set_insert_remove_contains() {
    let mut p = PendingSet::new();
    assert!(!p.contains("1:a"));
    p.insert("1:a".to_string());
    p.insert("1:a".to_string());
    p.insert("2:b".to_string());
    assert!(p.contains("1:a"));
    assert!(p.contains("2:b"));
    p.remove("1:a");
    assert!(!p.contains("1:a"));
    assert!(p.contains("2:b"));
    p.clear();
    assert!(!p.contains("2:b"));
}

#[test]
fn pending_set_keeps_only_range() {
    let mut p = PendingSet::new();
    for i in 0..10usize {
        p.insert(make_cache_key(i, "x"));
    }
    p.insert("junk".to_string());
    p.retain_range(3, 6);
    for i in 0..10usize {
        assert_eq!(p.contains(&make_cache_key(i, "x")), (3..6).contains(&i));
    }
    assert!(!p.contains("junk"));
    let mut q = PendingSet::new();
    q.insert("junk".to_string());
    q.retain_range(0, 1);
    assert!(q.contains("junk"));
}

#[test]
fn texture_cache_get_after_insert() {
    let mut c: TextureCache<u32> = TextureCache::new();
    c.insert("1:a".to_string(), 10);
    assert_eq!(c.get("1:a"), Some(&10));
    c.insert("1:a".to_string(), 11);
    assert_eq!(c.get("1:a"), Some(&11));
    assert_eq!(c.len(), 1);
    assert!(c.contains("1:a"));
    assert!(!c.contains("2:b"));
}

#[test]
fn texture_cache_evicts_oldest_beyond_cap() {
    let mut c: TextureCache<usize> = TextureCache::new();
    for i in 0..(CACHE_MAX + 3) {
        c.insert(make_cache_key(i, "p"), i);
    }
    assert_eq!(c.len(), CACHE_MAX);
    for i in 0..3 {
        assert!(!c.contains(&make_cache_key(i, "p")));
    }
    for i in 3..(CACHE_MAX + 3) {
        assert_eq!(c.get(&make_cache_key(i, "p")), Some(&i));
    }
}

#[test]
fn texture_cache_reinsert_refreshes_recency() {
    let mut c: TextureCache<usize> = TextureCache::new();
    for i in 0..CACHE_MAX {
        c.insert(make_cache_key(i, "p"), i);
    }
    c.insert(make_cache_key(0, "p"), 100);
    c.insert(make_cache_key(50, "p"), 50);
    assert!(c.contains(&make_cache_key(0, "p")));
    assert!(!c.contains(&make_cache_key(1, "p")));
    assert_eq!(c.len(), CACHE_MAX);
}

#[test]
fn texture_cache_remove_and_retain_range() {
    let mut c: TextureCache<usize> = TextureCache::new();
    for i in 0..8 {
        c.insert(make_cache_key(i, "p"), i);
    }
    c.remove(&make_cache_key(4, "p"));
    assert!(!c.contains(&make_cache_key(4, "p")));
    c.retain_range(2, 6);
    assert_eq!(c.len(), 3);
    assert!(c.contains(&make_cache_key(2, "p")));
    assert!(c.contains(&make_cache_key(5, "p")));
    assert!(!c.contains(&make_cache_key(6, "p")));
    c.clear();
    assert_eq!(c.len(), 0);
}
