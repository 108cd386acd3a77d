use booru_rs::cache::{cache_key, Cache, CacheConfig};

const SECOND: u64 = 1_000_000_000;
const MILLISECOND: u64 = 1_000_000;

#[test]
fn test_insert_get() {
    let mut cache = Cache::new();
    let value = vec![1u8, 2, 3];

    cache.insert("test", value.clone(), 0);

    let retrieved = cache.get("test", 0);
    assert_eq!(retrieved, Some(value));
}

#[test]
fn test_expiration() {
    let mut cache = Cache::with_config(CacheConfig {
        ttl: 50 * MILLISECOND,
        max_entries: 100,
    });

    cache.insert("test", b"\"value\"".to_vec(), 0);

    // Should exist immediately
    assert!(cache.contains_key("test", 0));

    // Should be expired after the time-to-live
    let result = cache.get("test", 100 * MILLISECOND);
    assert!(result.is_none());
}

#[test]
fn test_lru_eviction() {
    let mut cache = Cache::with_config(CacheConfig {
        ttl: 60 * SECOND,
        max_entries: 2,
    });

    cache.insert("a", b"1".to_vec(), 1);
    cache.insert("b", b"2".to_vec(), 2);

    // Access "a" to make it more recently used
    let _ = cache.get("a", 3);

    // Insert "c", which should evict "b" (LRU)
    cache.insert("c", b"3".to_vec(), 4);

    assert!(cache.contains_key("a", 4));
    assert!(!cache.contains_key("b", 4));
    assert!(cache.contains_key("c", 4));
}

#[test]
fn test_cache_key() {
    let key = cache_key(
        "danbooru",
        &["blue_eyes".to_string(), "cat_ears".to_string()],
        10,
        0,
    );
    assert!(key.starts_with("danbooru:"));
    assert!(key.contains("limit=10"));
    assert!(key.contains("page=0"));
}

#[test]
fn cache_key_has_the_documented_format() {
    assert_eq!(
        cache_key("danbooru", &["cat_ears".to_string(), "blue_eyes".to_string()], 10, 0),
        "danbooru:blue_eyes,cat_ears:limit=10:page=0"
    );
    assert_eq!(cache_key("gelbooru", &[], 100, 7), "gelbooru::limit=100:page=7");
    assert_eq!(
        cache_key("x", &["solo".to_string()], u32::MAX, u32::MAX),
        "x:solo:limit=4294967295:page=4294967295"
    );
}

#[test]
fn cache_key_does_not_depend_on_tag_order() {
    let a = ["b".to_string(), "a".to_string(), "c".to_string(), "a".to_string()];
    let b = ["a".to_string(), "c".to_string(), "a".to_string(), "b".to_string()];
    assert_eq!(cache_key("s", &a, 1, 2), cache_key("s", &b, 1, 2));
    assert_eq!(cache_key("s", &a, 1, 2), "s:a,a,b,c:limit=1:page=2");
}

#[test]
fn cache_key_sorts_like_std() {
    let tags: Vec<String> = ["b", "", "a", "ab", "B", "aa", "é", "z", "a", "~", "猫", "rating:general", "-x", "1girl", "10", "9"]
        .iter()
        .map(|s| s.to_string())
        .collect();
    let mut sorted = tags.clone();
    sorted.sort();
    assert_eq!(
        cache_key("c", &tags, 5, 6),
        format!("c:{}:limit=5:page=6", sorted.join(","))
    );
}

#[test]
fn configurations() {
    assert_eq!(CacheConfig::default(), CacheConfig { ttl: 300 * SECOND, max_entries: 500 });
    assert_eq!(CacheConfig::short_lived(), CacheConfig { ttl: 60 * SECOND, max_entries: 100 });
    assert_eq!(CacheConfig::long_lived(), CacheConfig { ttl: 3600 * SECOND, max_entries: 1000 });
    assert_eq!(Cache::new().config(), CacheConfig::default());
    assert_eq!(Cache::default().config(), CacheConfig::default());
    assert_eq!(
        Cache::with_config(CacheConfig::short_lived()).config(),
        CacheConfig::short_lived()
    );
}

#[test]
fn entry_lives_until_its_time_to_live_has_passed() {
    let mut cache = Cache::with_config(CacheConfig { ttl: 10, max_entries: 4 });
    cache.insert("k", vec![7], 100);
    assert!(cache.contains_key("k", 100));
    assert!(cache.contains_key("k", 109));
    assert!(!cache.contains_key("k", 110));
    assert_eq!(cache.len(), 1);
    assert_eq!(cache.get("k", 109), Some(vec![7]));
    assert_eq!(cache.get("k", 110), None);
    // The expired entry was removed by the lookup.
    assert_eq!(cache.len(), 0);
    assert!(cache.is_empty());
}

#[test]
fn access_does_not_extend_the_time_to_live() {
    let mut cache = Cache::with_config(CacheConfig { ttl: 10, max_entries: 4 });
    cache.insert("k", vec![7], 0);
    assert_eq!(cache.get("k", 9), Some(vec![7]));
    assert_eq!(cache.get("k", 10), None);
}

#[test]
fn inserting_a_key_again_replaces_its_entry() {
    let mut cache = Cache::with_config(CacheConfig { ttl: 10, max_entries: 2 });
    cache.insert("a", vec![1], 0);
    cache.insert("b", vec![2], 1);
    cache.insert("a", vec![3], 5);
    assert_eq!(cache.len(), 2);
    assert_eq!(cache.get("a", 14), Some(vec![3]));
    assert_eq!(cache.get("b", 10), Some(vec![2]));
    assert_eq!(cache.get("a", 15), None);
}

#[test]
fn eviction_takes_the_least_recently_accessed_entry() {
    let mut cache = Cache::with_config(CacheConfig { ttl: 1000, max_entries: 3 });
    cache.insert("a", vec![1], 10);
    cache.insert("b", vec![2], 20);
    cache.insert("c", vec![3], 30);
    assert_eq!(cache.get("a", 40), Some(vec![1]));
    assert_eq!(cache.get("c", 50), Some(vec![3]));
    cache.insert("d", vec![4], 60);
    assert_eq!(cache.len(), 3);
    assert!(cache.contains_key("a", 60));
    assert!(!cache.contains_key("b", 60));
    assert!(cache.contains_key("c", 60));
    assert!(cache.contains_key("d", 60));
    cache.insert("e", vec![5], 70);
    assert!(!cache.contains_key("a", 70));
    assert!(cache.contains_key("c", 70));
    assert!(cache.contains_key("d", 70));
    assert!(cache.contains_key("e", 70));
}

#[test]
fn eviction_counts_expired_entries_too() {
    let mut cache = Cache::with_config(CacheConfig { ttl: 10, max_entries: 2 });
    cache.insert("a", vec![1], 0);
    cache.insert("b", vec![2], 1);
    // Both have expired, and still the one accessed least recently goes.
    cache.insert("c", vec![3], 50);
    assert_eq!(cache.len(), 2);
    assert_eq!(cache.get("b", 5), Some(vec![2]));
    assert_eq!(cache.get("a", 5), None);
}

#[test]
fn of_entries_accessed_at_the_same_time_the_oldest_goes() {
    let mut cache = Cache::with_config(CacheConfig { ttl: 1000, max_entries: 2 });
    cache.insert("a", vec![1], 5);
    cache.insert("b", vec![2], 5);
    cache.insert("c", vec![3], 5);
    assert!(!cache.contains_key("a", 5));
    assert!(cache.contains_key("b", 5));
    assert!(cache.contains_key("c", 5));
}

#[test]
fn a_cache_for_no_entries_keeps_the_last_one() {
    let mut cache = Cache::with_config(CacheConfig { ttl: 1000, max_entries: 0 });
    cache.insert("a", vec![1], 0);
    assert_eq!(cache.len(), 1);
    cache.insert("b", vec![2], 1);
    assert_eq!(cache.len(), 1);
    assert!(!cache.contains_key("a", 1));
    assert_eq!(cache.get("b", 1), Some(vec![2]));
}

#[test]
fn remove_and_clear() {
    let mut cache = Cache::new();
    cache.insert("a", vec![1], 0);
    cache.insert("b", vec![2], 0);
    cache.remove("a");
    cache.remove("missing");
    assert_eq!(cache.len(), 1);
    assert!(!cache.contains_key("a", 0));
    assert!(cache.contains_key("b", 0));
    cache.clear();
    assert!(cache.is_empty());
    assert_eq!(cache.get("b", 0), None);
}

#[test]
fn cleanup_removes_what_has_expired_and_nothing_else() {
    let mut cache = Cache::with_config(CacheConfig { ttl: 10, max_entries: 10 });
    cache.insert("a", vec![1], 0);
    cache.insert("b", vec![2], 5);
    cache.insert("c", vec![3], 1);
    cache.insert("d", vec![4], 9);
    cache.cleanup_expired(12);
    assert_eq!(cache.len(), 2);
    assert_eq!(cache.get("b", 12), Some(vec![2]));
    assert_eq!(cache.get("d", 12), Some(vec![4]));
    cache.cleanup_expired(12);
    assert_eq!(cache.len(), 2);
    cache.cleanup_expired(u64::MAX);
    assert!(cache.is_empty());
}

#[test]
fn a_time_to_live_of_zero_expires_at_once() {
    let mut cache = Cache::with_config(CacheConfig { ttl: 0, max_entries: 10 });
    cache.insert("a", vec![1], 7);
    assert!(!cache.contains_key("a", 7));
    assert_eq!(cache.get("a", 7), None);
}

#[test]
fn an_entry_that_outlives_the_clock_never_expires() {
    let mut cache = Cache::with_config(CacheConfig { ttl: u64::MAX, max_entries: 10 });
    cache.insert("a", vec![1], 1);
    assert_eq!(cache.get("a", u64::MAX), Some(vec![1]));
    let mut on_the_edge = Cache::with_config(CacheConfig { ttl: u64::MAX, max_entries: 10 });
    on_the_edge.insert("a", vec![1], 0);
    assert_eq!(on_the_edge.get("a", u64::MAX - 1), Some(vec![1]));
    assert_eq!(on_the_edge.get("a", u64::MAX), None);
}

#[test]
fn keys_are_compared_by_their_text() {
    let mut cache = Cache::new();
    cache.insert("danbooru:a:limit=1:page=0", vec![1], 0);
    cache.insert("danbooru:a:limit=1:page=1", vec![2], 0);
    cache.insert("", vec![3], 0);
    assert_eq!(cache.get("danbooru:a:limit=1:page=0", 0), Some(vec![1]));
    assert_eq!(cache.get("danbooru:a:limit=1:page=1", 0), Some(vec![2]));
    assert_eq!(cache.get("", 0), Some(vec![3]));
    assert_eq!(cache.get("danbooru:a:limit=1:page=", 0), None);
}
