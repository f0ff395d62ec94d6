use nexus::memory::embedding_cache::{EmbeddingCache, CACHE_MAX_ENTRIES};

fn test_vector(seed: f32) -> [f32; 512] {
    let mut v = [0.0f32; 512];
    for (i, val) in v.iter_mut().enumerate() {
        *val = seed + i as f32 * 0.001;
    }
    v
}

fn bits(v: [f32; 512]) -> [u32; 512] {
    v.map(f32::to_bits)
}

fn floats(v: [u32; 512]) -> [f32; 512] {
    v.map(f32::from_bits)
}

#[test]
fn test_new_cache_is_empty() {
    let cache = EmbeddingCache::new();
    assert!(cache.is_empty());
    assert_eq!(cache.len(), 0);
}

#[test]
fn test_insert_and_get() {
    let mut cache = EmbeddingCache::new();
    let vec = test_vector(1.0);
    cache.insert("hello", bits(vec));

    let result = cache.get("hello");
    assert!(result.is_some());
    let got = floats(result.unwrap());
    assert_eq!(got[0], vec[0]);
    assert_eq!(got[511], vec[511]);
}

#[test]
fn test_miss_returns_none() {
    let mut cache = EmbeddingCache::new();
    assert!(cache.get("nonexistent").is_none());
}

#[test]
fn test_lru_eviction_at_capacity() {
    let mut cache = EmbeddingCache::new();

    for i in 0..CACHE_MAX_ENTRIES {
        cache.insert(&format!("key_{}", i), bits(test_vector(i as f32)));
    }
    assert_eq!(cache.len(), CACHE_MAX_ENTRIES);

    cache.insert("new_key", bits(test_vector(999.0)));
    assert_eq!(cache.len(), CACHE_MAX_ENTRIES);

    assert!(cache.get("key_0").is_none(), "key_0 must be evicted");

    assert!(cache.get("new_key").is_some(), "new_key must be present");
}

#[test]
fn test_lru_promotion_prevents_eviction() {
    let mut cache = EmbeddingCache::new();

    for i in 0..CACHE_MAX_ENTRIES {
        cache.insert(&format!("key_{}", i), bits(test_vector(i as f32)));
    }

    assert!(cache.get("key_0").is_some());

    cache.insert("new_key", bits(test_vector(999.0)));

    assert!(cache.get("key_0").is_some(), "key_0 must survive after promotion");
    assert!(cache.get("key_1").is_none(), "key_1 must be evicted as new LRU");
}

#[test]
fn test_hash_text_deterministic() {
    let h1 = EmbeddingCache::hash_text("test string");
    let h2 = EmbeddingCache::hash_text("test string");
    assert_eq!(h1, h2, "hash must be deterministic");

    let h3 = EmbeddingCache::hash_text("different string");
    assert_ne!(h1, h3, "different strings must produce different hashes");
}

#[test]
fn test_overwrite_same_key() {
    let mut cache = EmbeddingCache::new();
    let vec1 = test_vector(1.0);
    let vec2 = test_vector(2.0);

    cache.insert("same", bits(vec1));
    cache.insert("same", bits(vec2));

    let result = floats(cache.get("same").unwrap());
    assert_eq!(result[0], vec2[0], "overwrite must replace the value");
}

#[test]
fn hash_text_is_xxh3_of_the_utf8_bytes() {
    assert_eq!(EmbeddingCache::hash_text("hello"), xxhash_rust::xxh3::xxh3_128(b"hello"));
}

#[test]
fn cache_by_key_evicts_least_recently_used_key() {
    let mut cache = EmbeddingCache::new();
    for k in 0..CACHE_MAX_ENTRIES as u128 {
        cache.insert_by_key(k, bits(test_vector(k as f32)));
    }
    assert_eq!(cache.len(), CACHE_MAX_ENTRIES);
    // Touch key 0 so that key 1 is the least recently used.
    assert!(cache.get_by_key(0).is_some());
    cache.insert_by_key(5000, bits(test_vector(9.0)));
    assert_eq!(cache.len(), CACHE_MAX_ENTRIES);
    assert!(cache.get_by_key(1).is_none());
    assert_eq!(floats(cache.get_by_key(0).unwrap())[0], 0.0);
    assert_eq!(floats(cache.get_by_key(5000).unwrap())[0], 9.0);
    let key = EmbeddingCache::hash_text("hello");
    cache.insert("hello", bits(test_vector(3.0)));
    assert_eq!(floats(cache.get_by_key(key).unwrap())[0], 3.0);
}
