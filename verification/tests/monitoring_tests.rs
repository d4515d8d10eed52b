use evo_pro::repositories::metrics::CacheMetrics;
use evo_pro::repositories::monitored::{CollectorError, MetricsCollector, MonitoredCacheFactory, TimeSeriesMetrics};
use evo_pro::time_span::TimeSpan;

#[test]
fn test_monitored_memory_cache() {
    // Create a monitored memory cache
    let mut cache = MonitoredCacheFactory::memory_cache::<String>("test_memory_cache", 100, Some(TimeSpan::from_secs(60)));

    // Put some values
    cache.put("key1".to_string(), "value1".to_string(), 1_000);
    cache.put("key2".to_string(), "value2".to_string(), 1_000);

    // Get values (one hit, one miss)
    let _ = cache.get(&"key1".to_string(), 1_500);
    let _ = cache.get(&"key3".to_string(), 1_500);

    // Get metrics
    let metrics = cache.metrics();

    // Verify metrics
    assert_eq!(metrics.name, "test_memory_cache");
    assert_eq!(metrics.cache_type, "memory");
    assert_eq!(metrics.get_count, 2);
    assert_eq!(metrics.hit_count, 1);
    assert_eq!(metrics.miss_count, 1);
    assert_eq!(metrics.put_count, 2);
    assert_eq!(metrics.item_count, 2);
    assert_eq!(metrics.hit_rate_fraction(), (1, 2));

    // Test metrics summary
    let summary = cache.get_metrics_summary();
    assert!(summary.contains("test_memory_cache"));
    assert!(summary.contains("50.00%"));
}

#[test]
fn test_time_series_metrics() {
    // Create a monitored memory cache
    let mut cache = MonitoredCacheFactory::memory_cache::<String>("time_series_test", 100, Some(TimeSpan::from_secs(60)));

    // Enable time series collection
    cache.enable_time_series(&vec![
        ("1m".to_string(), 60), // 1 minute with 60 data points (1 per second)
        ("5m".to_string(), 30), // 5 minutes with 30 data points (1 per 10 seconds)
    ]);

    // Put and get some values
    for i in 0..5u64 {
        let key = format!("key{}", i);
        let value = format!("value{}", i);
        cache.put(key.clone(), value, 10 + i);
        let _ = cache.get(&key, 10 + i);
    }

    // One collection tick
    assert!(cache.collect_time_series_point());

    // Verify time series exists
    let series = cache.time_series().as_ref().expect("time series enabled");
    assert!(series.iter().any(|s| s.period == "1m"));
    assert!(series.iter().any(|s| s.period == "5m"));
    for s in series {
        assert_eq!(s.data_points.len(), 1);
        assert_eq!(s.data_points[0].get_count, 5);
        assert_eq!(s.data_points[0].hit_count, 5);
        assert_eq!(s.data_points[0].item_count, 5);
    }

    // Disable time series collection
    cache.disable_time_series();
    assert!(!cache.collect_time_series_point());
}

#[test]
fn time_series_drops_oldest_point() {
    let metrics = CacheMetrics::new("m", "memory");
    let mut series = TimeSeriesMetrics::new("1m", 2);
    series.add_data_point_at(&metrics, 1);
    series.add_data_point_at(&metrics, 2);
    series.add_data_point_at(&metrics, 3);
    let stamps: Vec<u64> = series.data_points.iter().map(|p| p.timestamp_ms).collect();
    assert_eq!(stamps, vec![2, 3]);
    assert_eq!(series.max_points, 2);
}

#[test]
fn monitored_cache_counts_removes_and_clears() {
    let mut cache = MonitoredCacheFactory::memory_cache::<u32>("c", 10, None);
    cache.put("a".to_string(), 1, 0);
    cache.put("b".to_string(), 2, 0);
    cache.remove(&"a".to_string());
    assert_eq!(cache.len(), 1);
    assert_eq!(cache.metrics().remove_count, 1);
    assert_eq!(cache.metrics().item_count, 1);
    cache.clear();
    assert_eq!(cache.len(), 0);
    assert_eq!(cache.metrics().clear_count, 1);
    assert_eq!(cache.metrics().item_count, 0);
    assert_eq!(cache.metrics().capacity, Some(10));
    let summary = cache.get_metrics_summary();
    assert_eq!(
        summary,
        "Cache 'c' (memory) - Hit Rate: 0.00%, Items: 0/10, Ops: 0 gets, 2 puts, 1 removes, 0 evictions, 0 errors"
    );
    cache.reset_metrics();
    assert_eq!(cache.metrics().put_count, 0);
    assert_eq!(cache.metrics().capacity, Some(10));
}

#[test]
fn test_metrics_collector() {
    // Create a metrics collector
    let mut collector = MetricsCollector::<String>::new();

    // Create two monitored caches
    let cache1 = MonitoredCacheFactory::memory_cache::<String>("cache1", 100, Some(TimeSpan::from_secs(60)));
    let cache2 = MonitoredCacheFactory::memory_cache::<String>("cache2", 200, Some(TimeSpan::from_secs(120)));

    // Register the caches
    collector.register_cache("cache1", cache1);
    collector.register_cache("cache2", cache2);

    // Put some values in both caches
    collector.cache_mut("cache1").unwrap().put("key1".to_string(), "value1".to_string(), 0);
    collector.cache_mut("cache2").unwrap().put("key2".to_string(), "value2".to_string(), 0);

    // Get values from both caches
    let _ = collector.cache_mut("cache1").unwrap().get(&"key1".to_string(), 1);
    let _ = collector.cache_mut("cache2").unwrap().get(&"key2".to_string(), 1);

    // Get all metrics
    let all_metrics = collector.get_all_metrics();
    let by_name = |n: &str| all_metrics.iter().find(|(name, _)| name == n).map(|(_, m)| m).unwrap();

    // Verify metrics
    assert_eq!(all_metrics.len(), 2);
    assert_eq!(by_name("cache1").name, "cache1");
    assert_eq!(by_name("cache2").name, "cache2");
    assert_eq!(by_name("cache1").hit_count, 1);
    assert_eq!(by_name("cache2").hit_count, 1);

    // Get summary
    let summary = collector.get_summary();
    assert!(summary.contains("cache1"));
    assert!(summary.contains("cache2"));

    // Reset metrics for one cache
    collector.reset_cache_metrics("cache1").unwrap();

    // Verify reset
    let cache1_metrics = collector.get_cache_metrics("cache1").unwrap();
    assert_eq!(cache1_metrics.hit_count, 0);

    // Cache2 should still have its metrics
    let cache2_metrics = collector.get_cache_metrics("cache2").unwrap();
    assert_eq!(cache2_metrics.hit_count, 1);
}

#[test]
fn metrics_collector_summary_and_unknown_caches() {
    let mut collector = MetricsCollector::<u8>::new();
    collector.register_cache("a", MonitoredCacheFactory::memory_cache::<u8>("a", 1, None));
    assert_eq!(
        collector.get_summary(),
        "Cache Metrics Summary (1 caches):\n- a: Cache 'a' (memory) - Hit Rate: 0.00%, Items: 0/1, Ops: 0 gets, 0 puts, 0 removes, 0 evictions, 0 errors\n"
    );
    assert_eq!(collector.reset_cache_metrics("b"), Err(CollectorError::NotFound("b".to_string())));
    assert!(collector.get_cache_metrics("b").is_none());
    collector.cache_mut("a").unwrap().put("k".to_string(), 1, 0);
    collector.reset_all_metrics();
    assert_eq!(collector.get_cache_metrics("a").unwrap().put_count, 0);
    collector.unregister_cache("a");
    assert!(collector.get_all_metrics().is_empty());
}
