use vox::intelligence::cache::{SemanticCache, SemanticCacheConfig};

const MS: u64 = 1_000_000;

#[test]
fn cache_test_cache_hit() {
    let mut cache = SemanticCache::new();

    cache.put("What is the weather today?", "It's sunny.");

    let result = cache.get("What is the weather today?");
    assert_eq!(result, Some("It's sunny.".to_string()));
}

#[test]
fn test_cache_miss() {
    let mut cache = SemanticCache::new();

    let result = cache.get("What is the weather today?");
    assert_eq!(result, None);
}

#[test]
fn test_semantic_similarity() {
    let mut cache = SemanticCache::new();

    cache.put("What is the weather today?", "It's sunny.");

    let result = cache.get("WHAT IS THE WEATHER TODAY?");
    assert_eq!(result, Some("It's sunny.".to_string()));

    let result = cache.get("what is the weather today");
    assert_eq!(result, Some("It's sunny.".to_string()));
}

#[test]
fn test_ttl_expiration() {
    let config = SemanticCacheConfig { max_entries: 100, ttl_ms: 100, enable_metrics: true };
    let mut cache = SemanticCache::with_config(config);

    cache.put_at("test", "response", 0);

    // Hit right away.
    assert!(cache.get_at("test", 0).is_some());

    // Miss once the time-to-live has passed.
    assert!(cache.get_at("test", 150 * MS).is_none());
}

#[test]
fn cache_test_lru_eviction() {
    let config = SemanticCacheConfig { max_entries: 2, ttl_ms: 3_600_000, enable_metrics: true };
    let mut cache = SemanticCache::with_config(config);

    cache.put("q1", "a1");
    cache.put("q2", "a2");

    // Access q1 to make it more recently used
    let _ = cache.get("q1");

    // Add q3, should evict q2 (least recently used)
    cache.put("q3", "a3");

    assert!(cache.get("q1").is_some());
    assert!(cache.get("q2").is_none());
    assert!(cache.get("q3").is_some());
}

#[test]
fn test_metrics() {
    let mut cache = SemanticCache::new();

    cache.put("q1", "a1");

    let _ = cache.get("q1"); // hit
    let _ = cache.get("q2"); // miss
    let _ = cache.get("q1"); // hit

    let metrics = cache.metrics();
    assert_eq!(metrics.hits, 2);
    assert_eq!(metrics.misses, 1);
    let hit_rate = metrics.hits as f64 / (metrics.hits + metrics.misses) as f64 * 100.0;
    assert!((hit_rate - 66.67).abs() < 0.01, "Hit rate should be ~66.67%");
}

#[test]
fn cache_test_clear() {
    let mut cache = SemanticCache::new();

    cache.put("q1", "a1");
    cache.put("q2", "a2");

    assert_eq!(cache.len(), 2);

    cache.clear();

    assert_eq!(cache.len(), 0);
    assert!(cache.is_empty());
}

#[test]
fn test_normalization() {
    let cache = SemanticCache::new();

    let normalized = cache.normalize_question("What, um, is the, like, weather today?!");
    assert_eq!(normalized, "what is the weather today");
}

#[test]
fn fillers_are_replaced_inside_words_too() {
    let cache = SemanticCache::new();
    assert_eq!(cache.normalize_question("Umbrella, you know?"), "brella");
    assert_eq!(cache.normalize_question("  I MEAN   it  "), "it");
    assert_eq!(cache.normalize_question("?!"), "");
}

#[test]
fn lru_eviction_follows_access_times() {
    let config = SemanticCacheConfig { max_entries: 2, ttl_ms: 1000, enable_metrics: true };
    let mut cache = SemanticCache::with_config(config);
    cache.put_at("q1", "a1", 1);
    cache.put_at("q2", "a2", 2);
    assert_eq!(cache.get_at("q1", 3), Some("a1".to_string()));
    cache.put_at("q3", "a3", 4);
    assert_eq!(cache.len(), 2);
    assert_eq!(cache.metrics().lru_evictions, 1);
    assert_eq!(cache.get_at("q2", 5), None);
    assert_eq!(cache.get_at("q1", 5), Some("a1".to_string()));
    assert_eq!(cache.get_at("q3", 5), Some("a3".to_string()));
}

#[test]
fn storing_again_replaces_the_answer_without_eviction() {
    let config = SemanticCacheConfig { max_entries: 1, ttl_ms: 1000, enable_metrics: true };
    let mut cache = SemanticCache::with_config(config);
    cache.put_at("Hello?", "first", 0);
    cache.put_at("hello", "second", 1);
    assert_eq!(cache.len(), 1);
    assert_eq!(cache.metrics().lru_evictions, 0);
    assert_eq!(cache.get_at("HELLO", 2), Some("second".to_string()));
}

#[test]
fn expired_entries_are_counted_and_swept() {
    let config = SemanticCacheConfig { max_entries: 10, ttl_ms: 10, enable_metrics: true };
    let mut cache = SemanticCache::with_config(config);
    cache.put_at("a", "1", 0);
    cache.put_at("b", "2", 8 * MS);
    cache.put_at("c", "3", 20 * MS);
    cache.evict_expired_at(15 * MS);
    assert_eq!(cache.len(), 2);
    assert_eq!(cache.metrics().ttl_evictions, 1);
    // exactly at the time-to-live an entry has expired
    assert_eq!(cache.get_at("b", 18 * MS), None);
    assert_eq!(cache.metrics().ttl_evictions, 2);
    assert_eq!(cache.metrics().misses, 1);
    assert_eq!(cache.get_at("c", 29 * MS), Some("3".to_string()));
}

#[test]
fn metrics_can_be_switched_off_and_reset() {
    let config = SemanticCacheConfig { max_entries: 10, ttl_ms: 10, enable_metrics: false };
    let mut cache = SemanticCache::with_config(config);
    cache.put_at("a", "1", 0);
    let _ = cache.get_at("a", 0);
    let _ = cache.get_at("b", 0);
    assert_eq!(cache.metrics().hits, 0);
    assert_eq!(cache.metrics().misses, 0);

    let mut on = SemanticCache::new();
    let _ = on.get("x");
    assert_eq!(on.metrics().misses, 1);
    on.reset_metrics();
    assert_eq!(on.metrics().misses, 0);
}

#[test]
fn equal_access_times_evict_the_least_recently_touched() {
    let config = SemanticCacheConfig { max_entries: 2, ttl_ms: 1000, enable_metrics: true };
    let mut cache = SemanticCache::with_config(config);
    cache.put_at("q1", "a1", 5);
    cache.put_at("q2", "a2", 5);
    assert_eq!(cache.get_at("q1", 5), Some("a1".to_string()));
    cache.put_at("q3", "a3", 5);
    assert_eq!(cache.get_at("q2", 5), None);
    assert_eq!(cache.get_at("q1", 5), Some("a1".to_string()));
    assert_eq!(cache.get_at("q3", 5), Some("a3".to_string()));
}
