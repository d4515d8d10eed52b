use vstd::prelude::*;
use crate::time_span::TimeSpan;
use vstd::string::*;
use crate::text::{append_decimal, append_decimal_u64, decimal, digit_char, digit_str};

verus! {

/// Cache operation type for metrics tracking.
#[derive(Debug, Clone, Copy, PartialEq, Eq, Structural, Hash)]
pub enum CacheOperation {
    /// Get operation
    Get,
    /// Put operation
    Put,
    /// Remove operation
    Remove,
    /// Clear operation
    Clear,
    /// Eviction (automatic removal due to TTL or capacity)
    Eviction,
}

/// Cache operation result for metrics tracking.
#[derive(Debug, Clone, Copy, PartialEq, Eq, Structural, Hash)]
pub enum CacheResult {
    /// Hit (found in cache)
    Hit,
    /// Miss (not found in cache)
    Miss,
    /// Success (operation completed successfully)
    Success,
    /// Error (operation failed)
    Error,
}

/// Cache metrics data. The hit rate is `hit_count / get_count`; times are
/// milliseconds since the Unix epoch.
#[derive(Debug)]
pub struct CacheMetrics {
    /// Cache name or identifier
    pub name: String,
    /// Cache type (memory, disk, hybrid)
    pub cache_type: String,
    /// Total number of get operations
    pub get_count: u64,
    /// Number of cache hits
    pub hit_count: u64,
    /// Number of cache misses
    pub miss_count: u64,
    /// Total number of put operations
    pub put_count: u64,
    /// Total number of remove operations
    pub remove_count: u64,
    /// Total number of clear operations
    pub clear_count: u64,
    /// Number of evictions
    pub eviction_count: u64,
    /// Number of errors
    pub error_count: u64,
    /// Current number of items in the cache
    pub item_count: usize,
    /// Maximum capacity of the cache
    pub capacity: Option<usize>,
    /// Average response time for get operations (in microseconds)
    pub avg_get_time_us: u64,
    /// Average response time for put operations (in microseconds)
    pub avg_put_time_us: u64,
    /// Total response time of the get operations (in microseconds)
    pub total_get_time_us: u64,
    /// Total response time of the put operations (in microseconds)
    pub total_put_time_us: u64,
    /// Memory usage estimate (in bytes)
    pub memory_usage_bytes: Option<u64>,
    /// Disk usage estimate (in bytes)
    pub disk_usage_bytes: Option<u64>,
    /// Time when metrics collection started
    pub start_time_ms: u64,
    /// Time of the last update
    pub last_updated_ms: u64,
    /// Time-to-live configuration
    pub ttl: Option<TimeSpan>,
}

/// The mean of `count` samples adding up to `total`, rounded down: 0 before
/// any sample.
pub open spec fn mean(total: int, count: int) -> int {
    if count <= 0 { 0 } else { total / count }
}

impl CacheMetrics {
    /// Create new cache metrics: all counts zero, started now.
    pub fn new(name: &str, cache_type: &str) -> (r: Self)
        ensures
            r.name@ == name@,
            r.cache_type@ == cache_type@,
            r.get_count == 0 && r.hit_count == 0 && r.miss_count == 0 && r.put_count == 0,
            r.remove_count == 0 && r.clear_count == 0 && r.eviction_count == 0 && r.error_count == 0,
            r.item_count == 0 && r.capacity is None,
            r.avg_get_time_us == 0 && r.avg_put_time_us == 0,
            r.total_get_time_us == 0 && r.total_put_time_us == 0,
            r.memory_usage_bytes is None && r.disk_usage_bytes is None,
            r.ttl is None,
            r.start_time_ms == r.last_updated_ms,
    {
        let now = crate::clock::now_millis();
        CacheMetrics {
            name: name.to_owned(),
            cache_type: cache_type.to_owned(),
            get_count: 0,
            hit_count: 0,
            miss_count: 0,
            put_count: 0,
            remove_count: 0,
            clear_count: 0,
            eviction_count: 0,
            error_count: 0,
            item_count: 0,
            capacity: None,
            avg_get_time_us: 0,
            avg_put_time_us: 0,
            total_get_time_us: 0,
            total_put_time_us: 0,
            memory_usage_bytes: None,
            disk_usage_bytes: None,
            start_time_ms: now,
            last_updated_ms: now,
            ttl: None,
        }
    }

    /// A copy of the metrics.
    pub fn duplicate(&self) -> (r: Self)
        ensures
            r == *self,
    {
        CacheMetrics {
            name: self.name.clone(),
            cache_type: self.cache_type.clone(),
            get_count: self.get_count,
            hit_count: self.hit_count,
            miss_count: self.miss_count,
            put_count: self.put_count,
            remove_count: self.remove_count,
            clear_count: self.clear_count,
            eviction_count: self.eviction_count,
            error_count: self.error_count,
            item_count: self.item_count,
            capacity: self.capacity,
            avg_get_time_us: self.avg_get_time_us,
            avg_put_time_us: self.avg_put_time_us,
            total_get_time_us: self.total_get_time_us,
            total_put_time_us: self.total_put_time_us,
            memory_usage_bytes: self.memory_usage_bytes,
            disk_usage_bytes: self.disk_usage_bytes,
            start_time_ms: self.start_time_ms,
            last_updated_ms: self.last_updated_ms,
            ttl: self.ttl,
        }
    }

    /// The hit rate as a fraction: hits over gets, or 0 over 1 before any get.
    pub fn hit_rate_fraction(&self) -> (r: (u64, u64))
        ensures
            self.get_count > 0 ==> r == (self.hit_count, self.get_count),
            self.get_count == 0 ==> r == (0u64, 1u64),
    {
        if self.get_count > 0 {
            (self.hit_count, self.get_count)
        } else {
            (0, 1)
        }
    }

    /// Record an operation that took `duration_us` microseconds.
    pub fn record_operation(&mut self, operation: CacheOperation, result: CacheResult, duration_us: u64)
        requires
            old(self).get_count < u64::MAX,
            old(self).hit_count < u64::MAX,
            old(self).miss_count < u64::MAX,
            old(self).put_count < u64::MAX,
            old(self).remove_count < u64::MAX,
            old(self).clear_count < u64::MAX,
            old(self).eviction_count < u64::MAX,
            old(self).error_count < u64::MAX,
            operation == CacheOperation::Get ==> old(self).total_get_time_us + duration_us <= u64::MAX,
            operation == CacheOperation::Put ==> old(self).total_put_time_us + duration_us <= u64::MAX,
        ensures
            final(self).get_count == old(self).get_count + if operation == CacheOperation::Get { 1int } else { 0int },
            final(self).hit_count == old(self).hit_count
                + if operation == CacheOperation::Get && result == CacheResult::Hit { 1int } else { 0int },
            final(self).miss_count == old(self).miss_count
                + if operation == CacheOperation::Get && result == CacheResult::Miss { 1int } else { 0int },
            final(self).put_count == old(self).put_count + if operation == CacheOperation::Put { 1int } else { 0int },
            final(self).remove_count == old(self).remove_count + if operation == CacheOperation::Remove { 1int } else { 0int },
            final(self).clear_count == old(self).clear_count + if operation == CacheOperation::Clear { 1int } else { 0int },
            final(self).eviction_count == old(self).eviction_count
                + if operation == CacheOperation::Eviction { 1int } else { 0int },
            final(self).error_count == old(self).error_count
                + if operation != CacheOperation::Eviction && result == CacheResult::Error { 1int } else { 0int },
            final(self).total_get_time_us == old(self).total_get_time_us
                + if operation == CacheOperation::Get { duration_us as int } else { 0int },
            final(self).total_put_time_us == old(self).total_put_time_us
                + if operation == CacheOperation::Put { duration_us as int } else { 0int },
            final(self).avg_get_time_us == if operation == CacheOperation::Get {
                mean(final(self).total_get_time_us as int, final(self).get_count as int)
            } else {
                old(self).avg_get_time_us as int
            },
            final(self).avg_put_time_us == if operation == CacheOperation::Put {
                mean(final(self).total_put_time_us as int, final(self).put_count as int)
            } else {
                old(self).avg_put_time_us as int
            },
            final(self).name == old(self).name,
            final(self).cache_type == old(self).cache_type,
            final(self).item_count == old(self).item_count,
            final(self).capacity == old(self).capacity,
            final(self).ttl == old(self).ttl,
            final(self).memory_usage_bytes == old(self).memory_usage_bytes,
            final(self).disk_usage_bytes == old(self).disk_usage_bytes,
            final(self).start_time_ms == old(self).start_time_ms,
    {
        match operation {
            CacheOperation::Get => {
                self.get_count = self.get_count + 1;
                match result {
                    CacheResult::Hit => self.hit_count = self.hit_count + 1,
                    CacheResult::Miss => self.miss_count = self.miss_count + 1,
                    CacheResult::Error => self.error_count = self.error_count + 1,
                    _ => {},
                }
                self.total_get_time_us = self.total_get_time_us + duration_us;
                self.avg_get_time_us = self.total_get_time_us / self.get_count;
            },
            CacheOperation::Put => {
                self.put_count = self.put_count + 1;
                if result == CacheResult::Error {
                    self.error_count = self.error_count + 1;
                }
                self.total_put_time_us = self.total_put_time_us + duration_us;
                self.avg_put_time_us = self.total_put_time_us / self.put_count;
            },
            CacheOperation::Remove => {
                self.remove_count = self.remove_count + 1;
                if result == CacheResult::Error {
                    self.error_count = self.error_count + 1;
                }
            },
            CacheOperation::Clear => {
                self.clear_count = self.clear_count + 1;
                if result == CacheResult::Error {
                    self.error_count = self.error_count + 1;
                }
            },
            CacheOperation::Eviction => {
                self.eviction_count = self.eviction_count + 1;
            },
        }
        self.last_updated_ms = crate::clock::now_millis();
    }

    /// Update item count.
    pub fn update_item_count(&mut self, count: usize)
        ensures
            *final(self) == (CacheMetrics { item_count: count, last_updated_ms: final(self).last_updated_ms, ..*old(self) }),
    {
        self.item_count = count;
        self.last_updated_ms = crate::clock::now_millis();
    }

    /// Set cache capacity.
    pub fn set_capacity(&mut self, capacity: Option<usize>)
        ensures
            *final(self) == (CacheMetrics { capacity, ..*old(self) }),
    {
        self.capacity = capacity;
    }

    /// Set TTL.
    pub fn set_ttl(&mut self, ttl: Option<TimeSpan>)
        ensures
            *final(self) == (CacheMetrics { ttl, ..*old(self) }),
    {
        self.ttl = ttl;
    }

    /// Set memory usage.
    pub fn set_memory_usage(&mut self, bytes: Option<u64>)
        ensures
            *final(self) == (CacheMetrics { memory_usage_bytes: bytes, ..*old(self) }),
    {
        self.memory_usage_bytes = bytes;
    }

    /// Set disk usage.
    pub fn set_disk_usage(&mut self, bytes: Option<u64>)
        ensures
            *final(self) == (CacheMetrics { disk_usage_bytes: bytes, ..*old(self) }),
    {
        self.disk_usage_bytes = bytes;
    }

    /// Reset metrics: counts start over, name, type, capacity and TTL stay.
    pub fn reset(&mut self)
        ensures
            final(self).name@ == old(self).name@,
            final(self).cache_type@ == old(self).cache_type@,
            final(self).capacity == old(self).capacity,
            final(self).ttl == old(self).ttl,
            final(self).get_count == 0 && final(self).hit_count == 0 && final(self).miss_count == 0,
            final(self).put_count == 0 && final(self).remove_count == 0 && final(self).clear_count == 0,
            final(self).eviction_count == 0 && final(self).error_count == 0,
            final(self).item_count == 0,
            final(self).avg_get_time_us == 0 && final(self).avg_put_time_us == 0,
            final(self).total_get_time_us == 0 && final(self).total_put_time_us == 0,
            final(self).memory_usage_bytes is None && final(self).disk_usage_bytes is None,
    {
        let capacity = self.capacity;
        let ttl = self.ttl;
        let mut fresh = CacheMetrics::new(self.name.as_str(), self.cache_type.as_str());
        fresh.capacity = capacity;
        fresh.ttl = ttl;
        *self = fresh;
    }
}

/// The hit rate in hundredths of a percent, rounded to the nearest (halves
/// up): 0 before any get.
pub open spec fn hit_rate_hundredths(hits: u64, gets: u64) -> int {
    if gets == 0 { 0 } else { (hits * 20000 + gets) / (2 * gets) }
}

/// The text of a number of hundredths as a decimal with two places.
pub open spec fn two_places(h: nat) -> Seq<char> {
    decimal(h / 100) + "."@ + seq![digit_char((h % 100) / 10), digit_char(h % 10)]
}

/// The summary line of a cache's metrics.
pub open spec fn summary_text(m: CacheMetrics) -> Seq<char> {
    "Cache '"@ + m.name@ + "' ("@ + m.cache_type@ + ") - Hit Rate: "@
        + two_places(hit_rate_hundredths(m.hit_count, m.get_count) as nat) + "%, Items: "@
        + decimal(m.item_count as nat) + "/"@
        + (match m.capacity { Some(c) => decimal(c as nat), None => "\u{221e}"@ })
        + ", Ops: "@ + decimal(m.get_count as nat) + " gets, "@ + decimal(m.put_count as nat) + " puts, "@
        + decimal(m.remove_count as nat) + " removes, "@ + decimal(m.eviction_count as nat) + " evictions, "@
        + decimal(m.error_count as nat) + " errors"@
}

impl CacheMetrics {
    /// A one-line summary of the metrics; the hit rate is given as a
    /// percentage with two decimals.
    pub fn summary(&self) -> (r: String)
        requires
            self.hit_count <= self.get_count,
        ensures
            r@ == summary_text(*self),
    {
        let hundredths: u64 = if self.get_count == 0 {
            0
        } else {
            let wide = ((self.hit_count as u128) * 20000 + (self.get_count as u128)) / (2 * (self.get_count as u128));
            assert(wide <= 10000) by (nonlinear_arith)
                requires
                    wide == ((self.hit_count as u128) * 20000 + (self.get_count as u128)) / (2 * (self.get_count as u128)),
                    self.hit_count <= self.get_count,
                    self.get_count > 0,
            {
            }
            wide as u64
        };
        let mut s = "Cache '".to_owned();
        s.append(self.name.as_str());
        s.append("' (");
        s.append(self.cache_type.as_str());
        s.append(") - Hit Rate: ");
        append_decimal_u64(&mut s, hundredths / 100);
        s.append(".");
        s.append(digit_str(((hundredths % 100) / 10) as usize));
        s.append(digit_str((hundredths % 10) as usize));
        s.append("%, Items: ");
        append_decimal(&mut s, self.item_count);
        s.append("/");
        match self.capacity {
            Some(c) => append_decimal(&mut s, c),
            None => s.append("\u{221e}"),
        }
        s.append(", Ops: ");
        append_decimal_u64(&mut s, self.get_count);
        s.append(" gets, ");
        append_decimal_u64(&mut s, self.put_count);
        s.append(" puts, ");
        append_decimal_u64(&mut s, self.remove_count);
        s.append(" removes, ");
        append_decimal_u64(&mut s, self.eviction_count);
        s.append(" evictions, ");
        append_decimal_u64(&mut s, self.error_count);
        s.append(" errors");
        assert(s@ =~= summary_text(*self));
        s
    }
}

} // verus!
