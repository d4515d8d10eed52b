use evo_pro::repositories::cache_warming::{
    CacheWarmer, CacheWarmingFactory, DataLoader, EagerWarmer, LoadError, PatternWarmer, PredictiveWarmer,
    WarmingConfig,
};
use std::collections::HashMap;
use evo_pro::repositories::glob::pattern_match;
use evo_pro::repositories::memory_cache::MemoryCache;
use evo_pro::repositories::metrics::{CacheMetrics, CacheOperation, CacheResult};
use evo_pro::repositories::query_builder::{
    AggregateFunction, BindValue, ConditionOperator, EnhancedQueryBuilder, JoinType, LogicalOperator,
    OrderDirection,
};
use evo_pro::repositories::validation::{
    DateValidation, Required, StringLength, TaskInput, TaskValidator, ValidationRule,
};
use evo_pro::text::append_decimal;
use evo_pro::time_span::TimeSpan;

#[test]
fn test_pattern_matching() {
    // Test exact match
    assert!(pattern_match("hello", "hello"));
    assert!(!pattern_match("hello", "world"));

    // Test wildcard at beginning
    assert!(pattern_match("hello world", "*world"));
    assert!(!pattern_match("hello world", "*universe"));

    // Test wildcard at end
    assert!(pattern_match("hello world", "hello*"));
    assert!(!pattern_match("hello world", "goodbye*"));

    // Test wildcard in middle
    assert!(pattern_match("hello beautiful world", "hello*world"));
    assert!(!pattern_match("hello beautiful universe", "hello*world"));

    // Test multiple wildcards
    assert!(pattern_match("hello beautiful world", "*beautiful*"));
    assert!(pattern_match("hello beautiful world", "hello*beautiful*world"));
    assert!(!pattern_match("goodbye cruel world", "hello*beautiful*world"));
}

#[test]
fn glob_edge_cases() {
    assert!(pattern_match("", "*"));
    assert!(pattern_match("anything", "*"));
    assert!(pattern_match("", ""));
    assert!(!pattern_match("a", ""));
    assert!(pattern_match("abc", "a**c"));
    // Each `*` takes whatever run of characters lets the rest match.
    assert!(pattern_match("abab", "*ab*b"));
    assert!(pattern_match("abab", "*ab"));
    assert!(pattern_match("bab", "*b"));
    assert!(pattern_match("abcbc", "a*b*c"));
    assert!(!pattern_match("abcbd", "a*b*c"));
    assert!(pattern_match("aaa", "a*a*a"));
    assert!(!pattern_match("aa", "a*a*a"));
}

// Mock data loader for testing
struct MockDataLoader {
    data: HashMap<String, Vec<u8>>,
    access_counts: HashMap<String, u64>,
    access_times: HashMap<String, i64>,
}

impl MockDataLoader {
    fn new() -> Self {
        let mut data = HashMap::new();
        let mut access_counts = HashMap::new();
        let mut access_times = HashMap::new();

        // Create some test data
        let now = chrono::Utc::now().timestamp_millis();
        for i in 0..100u64 {
            let id = uuid::Uuid::new_v4().to_string();
            let value = vec![i as u8; 10];
            data.insert(id.clone(), value);

            // Simulate some access patterns
            let count = if i < 20 { 20 } else { i / 5 };
            access_counts.insert(id.clone(), count);

            let time = now - (i as i64) * 3_600_000;
            access_times.insert(id, time);
        }

        Self { data, access_counts, access_times }
    }
}

impl DataLoader<Vec<u8>> for MockDataLoader {
    fn load_one(&self, key: &String) -> Result<Option<Vec<u8>>, LoadError> {
        Ok(self.data.get(key).cloned())
    }

    fn load_many(&self, keys: &[String]) -> Result<Vec<(String, Vec<u8>)>, LoadError> {
        let mut result = Vec::new();
        for key in keys {
            if let Some(value) = self.data.get(key) {
                result.push((key.clone(), value.clone()));
            }
        }
        Ok(result)
    }

    fn load_all(&self) -> Result<Vec<(String, Vec<u8>)>, LoadError> {
        Ok(self.data.iter().map(|(k, v)| (k.clone(), v.clone())).collect())
    }

    fn get_frequent_keys(&self, limit: usize) -> Result<Vec<String>, LoadError> {
        let mut keys: Vec<_> = self.access_counts.iter().collect();
        keys.sort_by(|a, b| b.1.cmp(a.1));
        Ok(keys.into_iter().take(limit).map(|(k, _)| k.clone()).collect())
    }

    fn get_recent_keys(&self, limit: usize) -> Result<Vec<String>, LoadError> {
        let mut keys: Vec<_> = self.access_times.iter().collect();
        keys.sort_by(|a, b| b.1.cmp(a.1));
        Ok(keys.into_iter().take(limit).map(|(k, _)| k.clone()).collect())
    }

    fn get_pattern_keys(&self, _pattern: &str) -> Result<Vec<String>, LoadError> {
        // For simplicity, just return all keys
        Ok(self.data.keys().cloned().collect())
    }
}

#[test]
fn test_eager_warmer() {
    let loader = MockDataLoader::new();
    let mut cache: MemoryCache<Vec<u8>> = MemoryCache::new(1000, None);

    let mut config = WarmingConfig::default();
    config.max_items = 50;
    config.batch_size = 10;

    let warmer = EagerWarmer::new(config);
    let count = warmer.warm_from(&mut cache, &loader, 1).unwrap();

    assert_eq!(count, 50);
    assert_eq!(cache.len(), 50);
}

#[test]
fn test_predictive_warmer() {
    let loader = MockDataLoader::new();
    let mut cache: MemoryCache<Vec<u8>> = MemoryCache::new(1000, None);

    let mut config = WarmingConfig::default();
    config.max_items = 30;
    config.batch_size = 10;

    let warmer = PredictiveWarmer::new(
        config,
        5,
        TimeSpan::from_secs(60 * 60 * 48), // 48 hours
    );

    let count = warmer.warm_from(&mut cache, &loader, 1).unwrap();

    // Should warm up to 30 items (our max_items limit)
    assert!(count <= 30);
    assert_eq!(cache.len(), count);
}

struct FailingLoader;

impl DataLoader<Vec<u8>> for FailingLoader {
    fn load_one(&self, _key: &String) -> Result<Option<Vec<u8>>, LoadError> {
        Err(LoadError { message: "down".to_string() })
    }
    fn load_many(&self, _keys: &[String]) -> Result<Vec<(String, Vec<u8>)>, LoadError> {
        Err(LoadError { message: "down".to_string() })
    }
    fn load_all(&self) -> Result<Vec<(String, Vec<u8>)>, LoadError> {
        Err(LoadError { message: "down".to_string() })
    }
    fn get_frequent_keys(&self, _limit: usize) -> Result<Vec<String>, LoadError> {
        Ok(vec!["k".to_string()])
    }
    fn get_recent_keys(&self, _limit: usize) -> Result<Vec<String>, LoadError> {
        Ok(vec![])
    }
    fn get_pattern_keys(&self, _pattern: &str) -> Result<Vec<String>, LoadError> {
        Ok(vec!["k".to_string()])
    }
}

#[test]
fn warmers_hand_back_loader_failures() {
    let mut cache: MemoryCache<Vec<u8>> = MemoryCache::new(10, None);
    cache.put("kept".to_string(), vec![1], 0);
    let down = LoadError { message: "down".to_string() };
    assert_eq!(EagerWarmer::default().warm_from(&mut cache, &FailingLoader, 1), Err(down.clone()));
    assert_eq!(PredictiveWarmer::default().warm_from(&mut cache, &FailingLoader, 1), Err(down.clone()));
    assert_eq!(PatternWarmer::default().warm_from(&mut cache, &FailingLoader, 1), Err(down));
    assert_eq!(cache.len(), 1);
}

#[test]
fn pattern_warmer_stops_at_the_limit() {
    let loader = MockDataLoader::new();
    let mut cache: MemoryCache<Vec<u8>> = MemoryCache::new(1000, None);
    let mut config = WarmingConfig::default();
    config.max_items = 25;
    config.batch_size = 10;
    let warmer = PatternWarmer::new(config, vec!["*".to_string(), "*".to_string()], vec![]);
    assert_eq!(warmer.warm_from(&mut cache, &loader, 1).unwrap(), 25);
    assert_eq!(cache.len(), 25);
}

#[test]
fn predictive_keys_are_deduplicated_in_order() {
    let mut config = WarmingConfig::default();
    config.max_items = 3;
    let warmer = PredictiveWarmer::new(config, 10, TimeSpan::from_secs(60));
    let frequent = vec!["a".to_string(), "a".to_string(), "b".to_string()];
    let recent = vec!["b".to_string(), "c".to_string(), "d".to_string()];
    assert_eq!(warmer.select_keys(&frequent, &recent), vec!["a", "b", "c"]);
    // A full set still takes the first recent key.
    let frequent = vec!["a".to_string(), "b".to_string(), "c".to_string()];
    let recent = vec!["d".to_string(), "e".to_string()];
    assert_eq!(warmer.select_keys(&frequent, &recent), vec!["a", "b", "c", "d"]);
}

#[test]
fn pattern_warmer_filters_keys() {
    // Keys are matched by their `Debug` text, quotes included.
    let warmer = PatternWarmer::new(
        WarmingConfig::default(),
        vec!["\"user:*".to_string()],
        vec!["*:tmp\"".to_string()],
    );
    assert!(warmer.matches_patterns("user:1"));
    assert!(!warmer.matches_patterns("user:1:tmp"));
    assert!(!warmer.matches_patterns("order:1"));
    let unquoted = PatternWarmer::new(WarmingConfig::default(), vec!["user:*".to_string()], vec!["*:tmp".to_string()]);
    assert!(!unquoted.matches_patterns("user:1"));
    let keys = vec!["user:1".to_string(), "user:2:tmp".to_string(), "user:3".to_string(), "user:4".to_string()];
    assert_eq!(warmer.select_keys(keys.clone(), 2), vec!["user:1", "user:3"]);
    assert_eq!(warmer.select_keys(keys.clone(), 10), vec!["user:1", "user:3", "user:4"]);
    assert_eq!(unquoted.select_keys(keys, 10).len(), 4);
    let default = PatternWarmer::default();
    assert!(default.matches_patterns("anything"));
    assert_eq!(default.name(), "pattern");
}

#[test]
fn warming_defaults_and_factory() {
    let c = WarmingConfig::default();
    assert_eq!(c.max_items, 1000);
    assert_eq!(c.batch_size, 100);
    assert!(c.interval.is_none());
    assert!(c.warm_on_startup && c.background);
    let e = EagerWarmer::default();
    assert_eq!(e.config().max_items, 1000);
    assert_eq!(e.name(), "eager");
    let p = CacheWarmingFactory::predictive_warmer(None, None, None);
    assert_eq!(p.frequency_threshold, 10);
    assert_eq!(p.name(), "predictive");
    let pw = CacheWarmingFactory::pattern_warmer(None, None, Some(vec!["\"x*".to_string()]));
    assert_eq!(pw.include_patterns, vec!["*".to_string()]);
    assert!(!pw.matches_patterns("xyz"));
    assert!(pw.matches_patterns("yz"));
    let ew = CacheWarmingFactory::eager_warmer(None);
    assert_eq!(ew.config.batch_size, 100);
}

#[test]
fn memory_cache_read_after_write() {
    let mut cache: MemoryCache<String> = MemoryCache::new(10, Some(TimeSpan::from_millis(100)));
    cache.put("k".to_string(), "v".to_string(), 1000);
    assert_eq!(cache.get(&"k".to_string(), 1050), Some("v".to_string()));
    // After the time-to-live the entry is gone.
    assert_eq!(cache.get(&"k".to_string(), 1100), None);
    assert!(cache.is_empty());
    cache.put("k".to_string(), "w".to_string(), 2000);
    cache.remove(&"k".to_string());
    assert_eq!(cache.get(&"k".to_string(), 2000), None);
    cache.put("a".to_string(), "1".to_string(), 3000);
    cache.clear();
    assert_eq!(cache.len(), 0);
}

#[test]
fn memory_cache_evicts_least_recently_used() {
    let mut cache: MemoryCache<u32> = MemoryCache::new(3, None);
    cache.put("a".to_string(), 1, 1);
    cache.put("b".to_string(), 2, 2);
    cache.put("c".to_string(), 3, 3);
    // Touch "a" so that "b" is the least recently used.
    assert_eq!(cache.get(&"a".to_string(), 4), Some(1));
    cache.put("d".to_string(), 4, 5);
    assert_eq!(cache.len(), 3);
    assert_eq!(cache.get(&"b".to_string(), 6), None);
    assert_eq!(cache.get(&"a".to_string(), 6), Some(1));
    assert_eq!(cache.get(&"d".to_string(), 6), Some(4));
}

#[test]
fn cache_metrics_count_operations() {
    let mut m = CacheMetrics::new("test_memory_cache", "memory");
    m.record_operation(CacheOperation::Get, CacheResult::Hit, 10);
    m.record_operation(CacheOperation::Get, CacheResult::Miss, 30);
    m.record_operation(CacheOperation::Put, CacheResult::Success, 8);
    assert_eq!(m.get_count, 2);
    assert_eq!(m.hit_count, 1);
    assert_eq!(m.miss_count, 1);
    assert_eq!(m.put_count, 1);
    assert_eq!(m.avg_get_time_us, 20);
    assert_eq!(m.avg_put_time_us, 8);
    assert_eq!(m.hit_rate_fraction(), (1, 2));
    m.record_operation(CacheOperation::Get, CacheResult::Hit, 20);
    assert_eq!(m.total_get_time_us, 60);
    assert_eq!(m.avg_get_time_us, 20);
    m.reset();
    assert_eq!(m.get_count, 0);
    assert_eq!(m.hit_rate_fraction(), (0, 1));
}

#[test]
fn operators_render_as_sql() {
    assert_eq!(ConditionOperator::Equal.as_sql(), "=");
    assert_eq!(ConditionOperator::NotEqual.as_sql(), "!=");
    assert_eq!(ConditionOperator::GreaterThanOrEqual.as_sql(), ">=");
    assert_eq!(ConditionOperator::IsNotNull.as_sql(), "IS NOT NULL");
    assert_eq!(LogicalOperator::Or.as_sql(), "OR");
    assert_eq!(OrderDirection::Desc.as_sql(), "DESC");
    assert_eq!(JoinType::Left.as_sql(), "LEFT JOIN");
    assert_eq!(AggregateFunction::GroupConcat.as_sql(), "GROUP_CONCAT");
}

#[test]
fn query_builder_assembles_clauses() {
    let mut q = EnhancedQueryBuilder::new("SELECT * FROM tasks");
    q.add_join(JoinType::Inner, "plans", "plans.id = tasks.plan_id");
    q.add_condition("status", ConditionOperator::Equal, Some(BindValue::Integer(1)), Some(LogicalOperator::And));
    q.add_condition("title", ConditionOperator::Like, None, Some(LogicalOperator::And));
    q.add_condition("due_date", ConditionOperator::IsNull, None, Some(LogicalOperator::Or));
    q.add_group_by(&vec!["status".to_string(), "priority".to_string()]);
    q.add_having_condition("count", ConditionOperator::GreaterThan, Some(BindValue::Integer(2)), None);
    q.add_order_by("due_date", OrderDirection::Asc);
    q.add_order_by("title", OrderDirection::Desc);
    q.add_limit(10);
    q.add_limit(20);
    q.add_offset(5);
    assert_eq!(
        q.sql(),
        "SELECT * FROM tasks INNER JOIN plans ON plans.id = tasks.plan_id WHERE status = ? OR due_date IS NULL \
         GROUP BY status, priority HAVING count > ? ORDER BY due_date ASC, title DESC LIMIT ? OFFSET ?"
    );
    assert_eq!(
        q.binds(),
        &vec![BindValue::Integer(1), BindValue::Integer(2), BindValue::Integer(10), BindValue::Integer(5)]
    );
    let mut a = EnhancedQueryBuilder::new("SELECT ");
    a.add_aggregate(AggregateFunction::Count, "id", "n");
    assert_eq!(a.sql(), "SELECT COUNT(id) AS n");
    let mut w = EnhancedQueryBuilder::new("SELECT 1");
    w.add_condition("x", ConditionOperator::In, Some(BindValue::Text("a".to_string())), None);
    w.add_where_clause(None);
    assert_eq!(w.sql(), "SELECT 1 WHERE x IN (?)");
}

#[test]
fn validation_rules() {
    assert!(Required.validate(&Some(1)).is_ok());
    let e = Required.validate(&None::<u8>).unwrap_err();
    assert_eq!(e.message, "This field is required");
    let rule = StringLength { min: Some(2), max: Some(4) };
    assert!(rule.validate(&"abc".to_string()).is_ok());
    let e = rule.validate(&"a".to_string()).unwrap_err();
    assert_eq!(e.message, "Length must be between 2 and 4 characters");
    assert!(rule.validate(&"abcde".to_string()).is_err());
    assert_eq!(StringLength { min: Some(10), max: None }.error_message(), "Length must be at least 10 characters");
    assert_eq!(StringLength { min: None, max: Some(255) }.error_message(), "Length must be at most 255 characters");
    assert_eq!(StringLength { min: None, max: None }.error_message(), "Invalid string length");
    let future = DateValidation { future: true, past: false };
    assert!(future.validate_at(10, 5).is_ok());
    assert_eq!(future.validate_at(4, 5).unwrap_err().message, "Date must be in the future");
    let past = DateValidation { future: false, past: true };
    assert_eq!(past.validate_at(6, 5).unwrap_err().message, "Date must be in the past");
    assert!(DateValidation { future: false, past: false }.validate(&0).is_ok());
    let mut s = String::new();
    append_decimal(&mut s, 1024);
    assert_eq!(s, "1024");
}

#[test]
fn task_validation() {
    let ok = TaskInput {
        title: "Write report".to_string(),
        description: None,
        start_time: 10,
        due_date: Some(20),
        end_time: Some(30),
        status: 2,
    };
    assert!(TaskValidator::validate(&ok).is_ok());
    let bad = TaskInput {
        title: String::new(),
        description: Some("x".repeat(1001)),
        start_time: 10,
        due_date: Some(5),
        end_time: Some(9),
        status: 0,
    };
    assert_eq!(
        TaskValidator::validate(&bad).unwrap_err().message,
        "Title is required, Description must be at most 1000 characters, Due date must be after start time, \
         End time must be after start time"
    );
    let long = TaskInput { title: "t".repeat(256), description: None, start_time: 0, due_date: None, end_time: None, status: 1 };
    assert_eq!(TaskValidator::validate(&long).unwrap_err().message, "Title must be at most 255 characters");
    let unfinished = TaskInput { title: "Done".to_string(), description: None, start_time: 0, due_date: None, end_time: None, status: 2 };
    assert_eq!(TaskValidator::validate(&unfinished).unwrap_err().message, "End time is required for completed tasks");
    let pending = TaskInput { title: "Later".to_string(), description: None, start_time: 0, due_date: None, end_time: None, status: 0 };
    assert!(TaskValidator::validate(&pending).is_ok());
}

#[test]
fn predictive_recency_threshold() {
    let w = PredictiveWarmer::new_at(WarmingConfig::default(), 5, TimeSpan::from_secs(60 * 60 * 48), 1_000_000_000_000);
    assert_eq!(w.recency_threshold_ms, 1_000_000_000_000 - 48 * 3_600_000);
    assert_eq!(w.frequency_threshold, 5);
    let forever = PredictiveWarmer::new_at(WarmingConfig::default(), 5, TimeSpan::from_millis(u64::MAX), 7);
    assert_eq!(forever.recency_threshold_ms, 7);
    let now = PredictiveWarmer::new(WarmingConfig::default(), 1, TimeSpan::from_secs(60));
    assert!(now.recency_threshold_ms > 0);
}

#[test]
fn average_get_time_is_the_mean() {
    let mut m = CacheMetrics::new("c", "memory");
    m.record_operation(CacheOperation::Get, CacheResult::Hit, 10);
    m.record_operation(CacheOperation::Get, CacheResult::Miss, 20);
    m.record_operation(CacheOperation::Get, CacheResult::Hit, 30);
    assert_eq!(m.get_count, 3);
    assert_eq!(m.hit_count, 2);
    assert_eq!(m.miss_count, 1);
    assert_eq!(m.avg_get_time_us, 20);
    assert_eq!(m.hit_rate_fraction(), (2, 3));
}
