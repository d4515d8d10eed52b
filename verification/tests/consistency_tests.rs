use evo_pro::repositories::cache::{key_path, CacheFactory, DiskCache};
use evo_pro::repositories::cache_consistency::{
    apply_operation, CacheConsistencyFactory, ChangePropagator, CacheConsistencyStrategy, CacheOperation, ConsistencyConfig,
    ConsistencyError, ConsistentCache, DataSource, ExpirationStrategy, InvalidationStrategy, WriteBehindStrategy,
    WriteThroughStrategy,
};
use evo_pro::repositories::memory_cache::MemoryCache;
use evo_pro::time_span::TimeSpan;
use std::collections::HashMap;

#[derive(Default)]
struct MockDataSource {
    data: HashMap<String, String>,
    write_count: usize,
    delete_count: usize,
    clear_count: usize,
    refuse: bool,
}

impl DataSource<String> for MockDataSource {
    fn read(&self, key: &String) -> Result<Option<String>, ConsistencyError> {
        Ok(self.data.get(key).cloned())
    }
    fn write(&mut self, key: &String, value: &String) -> Result<(), ConsistencyError> {
        if self.refuse {
            return Err(ConsistencyError::DataSource("refused".to_string()));
        }
        self.data.insert(key.clone(), value.clone());
        self.write_count += 1;
        Ok(())
    }
    fn delete(&mut self, key: &String) -> Result<(), ConsistencyError> {
        self.data.remove(key);
        self.delete_count += 1;
        Ok(())
    }
    fn clear(&mut self) -> Result<(), ConsistencyError> {
        self.data.clear();
        self.clear_count += 1;
        Ok(())
    }
}

fn key(s: &str) -> String {
    s.to_string()
}

#[test]
fn test_write_through_strategy() {
    let cache = CacheFactory::memory_cache::<String>(100, None);
    let strategy = WriteThroughStrategy::new(MockDataSource::default(), ConsistencyConfig::default(), false);
    let mut consistent_cache = ConsistentCache::new(cache, strategy);

    consistent_cache.put(key("key1"), "value1".to_string(), 1).unwrap();
    assert_eq!(consistent_cache.get(&key("key1"), 2), Some("value1".to_string()));
    let source = &consistent_cache.strategy().data_source;
    assert_eq!(source.read(&key("key1")).unwrap(), Some("value1".to_string()));
    assert_eq!(source.write_count, 1);

    consistent_cache.remove(&key("key1")).unwrap();
    assert_eq!(consistent_cache.get(&key("key1"), 3), None);
    let source = &consistent_cache.strategy().data_source;
    assert_eq!(source.read(&key("key1")).unwrap(), None);
    assert_eq!(source.delete_count, 1);
}

#[test]
fn write_through_leaves_cache_alone_when_source_refuses() {
    let cache = CacheFactory::memory_cache::<String>(100, None);
    let source = MockDataSource { refuse: true, ..Default::default() };
    let mut c = ConsistentCache::new(cache, WriteThroughStrategy::new(source, ConsistencyConfig::default(), true));
    assert!(c.put(key("k"), "v".to_string(), 1).is_err());
    assert_eq!(c.get(&key("k"), 1), None);
    assert_eq!(c.len(), 0);
}

#[test]
fn write_through_propagates_when_it_has_a_propagator() {
    let cache = CacheFactory::memory_cache::<String>(100, None);
    let mut c = ConsistentCache::new(
        cache,
        WriteThroughStrategy::new(MockDataSource::default(), ConsistencyConfig::default(), true),
    );
    let op = c.put(key("k"), "v".to_string(), 1).unwrap();
    assert_eq!(op, Some(CacheOperation::Write(key("k"), "v".to_string())));
    assert_eq!(c.clear().unwrap(), Some(CacheOperation::Clear));
    assert_eq!(c.strategy().data_source.clear_count, 1);
}

#[test]
fn test_write_behind_strategy() {
    // Create a mock data source
    let mut data_source = MockDataSource::default();

    // Create a memory cache
    let cache = CacheFactory::memory_cache::<String>(100, None);

    // Create a write-behind strategy
    let strategy = WriteBehindStrategy::new(ConsistencyConfig::default(), false);

    // Create a consistent cache
    let mut consistent_cache = ConsistentCache::new(cache, strategy);

    // Put a value
    consistent_cache.put(key("key1"), "value1".to_string(), 1).unwrap();

    // Verify the value is in the cache
    let value = consistent_cache.get(&key("key1"), 2);
    assert_eq!(value, Some("value1".to_string()));

    // A round of the background writer
    assert_eq!(data_source.write_count, 0);
    consistent_cache.strategy_mut().process_pending(&mut data_source);

    // Verify the value is in the data source
    let value = data_source.read(&key("key1")).unwrap();
    assert_eq!(value, Some("value1".to_string()));

    // Verify the write count
    assert_eq!(data_source.write_count, 1);

    // Remove the value
    consistent_cache.remove(&key("key1")).unwrap();

    // Verify the value is not in the cache
    let value = consistent_cache.get(&key("key1"), 3);
    assert_eq!(value, None);

    // A round of the background writer
    consistent_cache.strategy_mut().process_pending(&mut data_source);

    // Verify the value is not in the data source
    let value = data_source.read(&key("key1")).unwrap();
    assert_eq!(value, None);

    // Verify the delete count
    assert_eq!(data_source.delete_count, 1);
}

#[test]
fn write_behind_queue_is_bounded() {
    let mut config = ConsistencyConfig::default();
    config.max_pending_operations = 2;
    let mut strategy = WriteBehindStrategy::new(config, true);
    let mut cache = CacheFactory::memory_cache::<String>(100, None);
    assert!(strategy.process_write(key("a"), "1".to_string(), &mut cache, 1).is_ok());
    assert!(strategy.process_write(key("b"), "2".to_string(), &mut cache, 1).is_ok());
    let e = strategy.process_write(key("c"), "3".to_string(), &mut cache, 1).unwrap_err();
    assert_eq!(
        e,
        ConsistencyError::ResourceLimitExceeded("Maximum number of pending cache operations reached".to_string())
    );
    // The cache took the change all the same.
    assert_eq!(cache.get(&key("c"), 1), Some("3".to_string()));
    let mut source = MockDataSource::default();
    let outcome = strategy.flush(&mut source);
    assert!(outcome.error.is_none());
    assert_eq!(outcome.written, 2);
    assert_eq!(outcome.propagate.len(), 2);
    assert_eq!(source.write_count, 2);
    assert!(strategy.drain_pending().is_empty());
}

#[test]
fn write_behind_flush_stops_at_a_refusal() {
    let mut strategy = WriteBehindStrategy::new(ConsistencyConfig::default(), true);
    let mut cache = CacheFactory::memory_cache::<String>(100, None);
    strategy.process_invalidation(&key("a"), &mut cache).unwrap();
    strategy.process_write(key("b"), "2".to_string(), &mut cache, 1).unwrap();
    strategy.process_invalidation(&key("c"), &mut cache).unwrap();
    let mut source = MockDataSource { refuse: true, ..MockDataSource::default() };
    let outcome = strategy.flush(&mut source);
    assert_eq!(outcome.written, 1);
    assert_eq!(outcome.propagate, vec![CacheOperation::Invalidate(key("a"))]);
    assert_eq!(outcome.error, Some(ConsistencyError::DataSource("refused".to_string())));
    // The flush emptied the queue; nothing is retried.
    assert!(strategy.drain_pending().is_empty());
}

#[test]
fn write_behind_background_round_retries_refusals() {
    let mut strategy = WriteBehindStrategy::new(ConsistencyConfig::default(), true);
    let mut cache = CacheFactory::memory_cache::<String>(100, None);
    strategy.process_write(key("b"), "2".to_string(), &mut cache, 1).unwrap();
    strategy.process_invalidation(&key("c"), &mut cache).unwrap();
    let mut source = MockDataSource { refuse: true, ..MockDataSource::default() };
    let propagate = strategy.process_pending(&mut source);
    assert_eq!(propagate, vec![CacheOperation::Invalidate(key("c"))]);
    assert_eq!(strategy.drain_pending(), vec![CacheOperation::Write(key("b"), "2".to_string())]);
}

#[test]
fn write_behind_requeues_failed_operations() {
    let mut strategy: WriteBehindStrategy<String> = WriteBehindStrategy::new(ConsistencyConfig::default(), false);
    strategy.requeue_failed(CacheOperation::Clear);
    assert_eq!(strategy.drain_pending(), vec![CacheOperation::Clear]);
    let mut config = ConsistencyConfig::default();
    config.retry_failed_operations = false;
    let mut strategy: WriteBehindStrategy<String> = WriteBehindStrategy::new(config, false);
    strategy.requeue_failed(CacheOperation::Clear);
    assert!(strategy.drain_pending().is_empty());
}

#[test]
fn test_invalidation_strategy() {
    let cache = CacheFactory::memory_cache::<String>(100, None);
    let strategy = InvalidationStrategy::new(ConsistencyConfig::default(), false);
    let mut consistent_cache = ConsistentCache::new(cache, strategy);

    consistent_cache.cache_mut().put(key("key1"), "value1".to_string(), 1);
    assert_eq!(consistent_cache.get(&key("key1"), 1), Some("value1".to_string()));

    // A write invalidates the key.
    consistent_cache.put(key("key1"), "value2".to_string(), 2).unwrap();
    assert_eq!(consistent_cache.get(&key("key1"), 2), None);
}

#[test]
fn test_expiration_strategy() {
    let cache = CacheFactory::memory_cache::<String>(100, Some(TimeSpan::from_millis(200)));
    let strategy = ExpirationStrategy::new(ConsistencyConfig::default(), TimeSpan::from_millis(200));
    assert_eq!(strategy.ttl(), TimeSpan::from_millis(200));
    let mut consistent_cache = ConsistentCache::new(cache, strategy);

    consistent_cache.put(key("key1"), "value1".to_string(), 1000).unwrap();
    assert_eq!(consistent_cache.get(&key("key1"), 1100), Some("value1".to_string()));
    // Once the time-to-live has passed, the value is gone.
    assert_eq!(consistent_cache.get(&key("key1"), 1300), None);
}

#[test]
fn test_change_propagator() {
    // Create a change propagator
    let mut propagator = ChangePropagator::<String>::new();

    // Create two caches: the first behind an invalidation strategy, the
    // second registered with the propagator
    let mut consistent_cache1 = ConsistentCache::new(
        CacheFactory::memory_cache::<String>(100, None),
        InvalidationStrategy::new(ConsistencyConfig::default(), true),
    );
    propagator.register_cache("cache2", CacheFactory::memory_cache::<String>(100, None));

    // Put a value in both caches
    consistent_cache1.cache_mut().put(key("key1"), "value1".to_string(), 1);
    propagator.cache_mut("cache2").unwrap().put(key("key1"), "value1".to_string(), 1);

    // Verify the value is in both caches
    assert_eq!(consistent_cache1.get(&key("key1"), 1), Some("value1".to_string()));
    assert_eq!(propagator.cache_mut("cache2").unwrap().get(&key("key1"), 1), Some("value1".to_string()));

    // Invalidate the key in cache1; the operation to propagate reaches cache2
    let op = consistent_cache1.remove(&key("key1")).unwrap().unwrap();
    propagator.propagate(op, 2);

    // Verify the value is not in either cache
    assert_eq!(consistent_cache1.get(&key("key1"), 2), None);
    assert_eq!(propagator.cache_mut("cache2").unwrap().get(&key("key1"), 2), None);
}

#[test]
fn propagator_applies_writes_and_clears_to_every_cache() {
    let mut propagator = ChangePropagator::<String>::new();
    propagator.register_cache("a", CacheFactory::memory_cache::<String>(10, None));
    propagator.register_cache("b", CacheFactory::memory_cache::<String>(10, None));
    propagator.propagate(CacheOperation::Write(key("k"), "v".to_string()), 1);
    assert_eq!(propagator.cache_mut("a").unwrap().get(&key("k"), 1), Some("v".to_string()));
    assert_eq!(propagator.cache_mut("b").unwrap().get(&key("k"), 1), Some("v".to_string()));
    propagator.propagate(CacheOperation::Clear, 2);
    assert_eq!(propagator.cache_mut("a").unwrap().len(), 0);
    propagator.unregister_cache("b");
    assert!(propagator.cache_mut("b").is_none());
    let mut cache = CacheFactory::memory_cache::<String>(10, None);
    apply_operation(CacheOperation::Write(key("x"), "y".to_string()), &mut cache, 1);
    assert_eq!(cache.len(), 1);
}

#[test]
fn test_factory_methods() {
    let cache = CacheFactory::memory_cache::<String>(100, None);
    let mut write_through_cache = CacheConsistencyFactory::write_through(cache, MockDataSource::default(), None, false);
    write_through_cache.put(key("key1"), "value1".to_string(), 1).unwrap();
    assert_eq!(write_through_cache.get(&key("key1"), 1), Some("value1".to_string()));
    assert_eq!(
        write_through_cache.strategy().data_source.read(&key("key1")).unwrap(),
        Some("value1".to_string())
    );
    assert_eq!(write_through_cache.strategy().name(), "write-through");
    assert!(write_through_cache.strategy().config().propagate_changes);
    let e = CacheConsistencyFactory::expiration(CacheFactory::memory_cache::<String>(10, None), None, TimeSpan::from_secs(1));
    assert_eq!(<ExpirationStrategy as CacheConsistencyStrategy<String>>::name(e.strategy()), "expiration");
    let i = CacheConsistencyFactory::invalidation(CacheFactory::memory_cache::<String>(10, None), None, false);
    assert_eq!(<InvalidationStrategy as CacheConsistencyStrategy<String>>::name(i.strategy()), "invalidation");
    let b = CacheConsistencyFactory::write_behind(CacheFactory::memory_cache::<String>(10, None), None, false);
    assert_eq!(b.strategy().name(), "write-behind");
    assert_eq!(b.strategy().config().max_pending_operations, 1000);
}

#[test]
fn consistency_defaults() {
    let c = ConsistencyConfig::default();
    assert!(c.propagate_changes);
    assert_eq!(c.propagation_timeout, Some(TimeSpan::from_secs(5)));
    assert!(!c.synchronous_propagation);
    assert_eq!(c.max_pending_operations, 1000);
    assert!(c.retry_failed_operations);
    assert_eq!(c.max_retry_attempts, 3);
    assert_eq!(c.retry_delay, TimeSpan::from_millis(100));
    assert!(c.log_operations);
}

#[test]
fn applied_operations() {
    let mut cache: MemoryCache<String> = MemoryCache::new(10, None);
    apply_operation(CacheOperation::Write(key("a"), "1".to_string()), &mut cache, 1);
    assert_eq!(cache.get(&key("a"), 1), Some("1".to_string()));
    apply_operation(CacheOperation::Clear, &mut cache, 2);
    assert_eq!(cache.len(), 0);
}

#[test]
fn disk_cache_file_names_and_index() {
    // md5 of the bincode form of "key1": its length as 8 little-endian bytes, then the bytes.
    let mut bytes = 4u64.to_le_bytes().to_vec();
    bytes.extend_from_slice(b"key1");
    let expected = format!("{:x}", md5::compute(&bytes));
    assert_eq!(key_path(&key("key1")), expected);
    assert_eq!(key_path(&key("key1")).len(), 32);
    assert_ne!(key_path(&key("key1")), key_path(&key("key2")));

    let mut disk = DiskCache::new("/tmp/cache".to_string(), Some(TimeSpan::from_millis(100)));
    disk.record_put(key("a"), 1000);
    disk.record_put(key("b"), 1150);
    assert!(disk.contains(&key("a")));
    assert_eq!(disk.len(), 2);
    let removed = disk.evict_expired(1200);
    assert_eq!(removed, vec![key_path(&key("a"))]);
    assert!(!disk.contains(&key("a")));
    assert!(disk.contains(&key("b")));
    disk.remove(&key("b"));
    assert_eq!(disk.len(), 0);
    disk.record_put(key("c"), 1);
    disk.clear();
    assert_eq!(disk.len(), 0);
    assert_eq!(disk.cache_dir(), "/tmp/cache");
}

#[test]
fn promote_from_disk_keeps_the_value_in_memory() {
    let mut memory: evo_pro::repositories::memory_cache::MemoryCache<String> =
        evo_pro::repositories::memory_cache::MemoryCache::new(10, None);
    let k = "k".to_string();
    assert_eq!(evo_pro::repositories::cache::promote_from_disk(&mut memory, &k, None, 5), None);
    assert_eq!(memory.get(&k, 6), None);
    assert_eq!(
        evo_pro::repositories::cache::promote_from_disk(&mut memory, &k, Some("v".to_string()), 7),
        Some("v".to_string())
    );
    assert_eq!(memory.get(&k, 8), Some("v".to_string()));
}
