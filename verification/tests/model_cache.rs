use std::sync::Arc;
use vox::error::VoxError;
use vox::model_cache::{CacheKey, ModelCache};

type Stt = Arc<String>;
type Tts = Arc<String>;

fn mock() -> Result<Stt, VoxError> {
    Ok(Arc::new("mock stt".to_string()))
}

#[test]
fn model_cache_test_cache_hit() {
    let mut cache: ModelCache<Stt, Tts> = ModelCache::new(2);
    let key = CacheKey { kind: "stt".to_string(), identifier: "test".to_string() };

    let _backend1 = cache.get_or_load_stt(key.clone(), mock).unwrap();
    assert_eq!(cache.misses(), 1);
    assert_eq!(cache.hits(), 0);

    let _backend2 = cache.get_or_load_stt(key.clone(), mock).unwrap();
    assert_eq!(cache.misses(), 1);
    assert_eq!(cache.hits(), 1);
}

#[test]
fn model_cache_test_lru_eviction() {
    let mut cache: ModelCache<Stt, Tts> = ModelCache::new(2);
    let key1 = CacheKey { kind: "stt".to_string(), identifier: "model1".to_string() };
    let key2 = CacheKey { kind: "stt".to_string(), identifier: "model2".to_string() };
    let key3 = CacheKey { kind: "stt".to_string(), identifier: "model3".to_string() };

    cache.get_or_load_stt(key1.clone(), mock).unwrap();
    cache.get_or_load_stt(key2.clone(), mock).unwrap();
    cache.get_or_load_stt(key1.clone(), mock).unwrap();
    cache.get_or_load_stt(key3.clone(), mock).unwrap();

    assert_eq!(cache.len(), 2);
    // key1 and key3 stay; key2 was the least recently used.
    let before = cache.misses();
    cache.get_or_load_stt(key1.clone(), mock).unwrap();
    cache.get_or_load_stt(key3.clone(), mock).unwrap();
    assert_eq!(cache.misses(), before);
    cache.get_or_load_stt(key2.clone(), mock).unwrap();
    assert_eq!(cache.misses(), before + 1);
}

#[test]
fn loader_errors_are_returned_and_not_cached() {
    let mut cache: ModelCache<Stt, Tts> = ModelCache::new(1);
    let key = CacheKey::tts("voices.bin");
    let r = cache.get_or_load_tts(key.clone(), || Err(VoxError::Tts("missing".into())));
    assert!(matches!(r, Err(VoxError::Tts(_))));
    assert_eq!(cache.len(), 0);
    assert_eq!(cache.misses(), 1);
    let loaded = cache.get_or_load_tts(key.clone(), || Ok(Arc::new("voice".to_string()))).unwrap();
    assert_eq!(loaded.as_str(), "voice");
    let again = cache.get_or_load_tts(key.clone(), || Ok(Arc::new("other".to_string()))).unwrap();
    assert_eq!(again.as_str(), "voice");
    assert_eq!(cache.hits(), 1);
    // A speech-to-text lookup under the same key is a miss and replaces the entry.
    cache.get_or_load_stt(key, mock).unwrap();
    assert_eq!(cache.len(), 1);
    cache.clear();
    assert_eq!(cache.len(), 0);
    assert_eq!(cache.hits(), 0);
    assert_eq!(cache.max_entries(), 1);
}
