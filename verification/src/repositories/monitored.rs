use vstd::prelude::*;
use crate::repositories::memory_cache::{get_result, put_result, CacheEntry, MemoryCache};
use crate::repositories::metrics::{CacheMetrics, CacheOperation, CacheResult};
use crate::time_span::TimeSpan;
use crate::keyed::{KeyedMap, LookupKey};
use crate::repositories::metrics::summary_text;
use crate::text::{append_decimal, decimal};

verus! {

/// A time series data point; the hit rate is `hit_count / get_count`.
#[derive(Debug, Clone, Copy, PartialEq, Eq, Structural)]
pub struct TimeSeriesDataPoint {
    /// When the point was taken, in milliseconds since the Unix epoch
    pub timestamp_ms: u64,
    pub hit_count: u64,
    pub item_count: usize,
    pub get_count: u64,
    pub put_count: u64,
    pub avg_get_time_us: u64,
}

/// Time series metrics for tracking cache performance over time.
#[derive(Debug)]
pub struct TimeSeriesMetrics {
    /// Time period (e.g., "1m", "5m", "1h", "1d")
    pub period: String,
    /// Data points, oldest first
    pub data_points: Vec<TimeSeriesDataPoint>,
    /// Maximum number of data points to keep
    pub max_points: usize,
}

/// What adding point `p` makes of the points `ps` kept up to `max`: the point
/// is appended and, when that makes too many, the oldest is dropped.
pub open spec fn with_point(ps: Seq<TimeSeriesDataPoint>, p: TimeSeriesDataPoint, max: usize) -> Seq<TimeSeriesDataPoint> {
    if ps.len() + 1 > max { ps.push(p).drop_first() } else { ps.push(p) }
}

impl TimeSeriesMetrics {
    /// Create an empty series.
    pub fn new(period: &str, max_points: usize) -> (r: Self)
        ensures
            r.period@ == period@,
            r.data_points@.len() == 0,
            r.max_points == max_points,
    {
        TimeSeriesMetrics { period: period.to_owned(), data_points: Vec::new(), max_points }
    }

    /// Add a data point taken from `metrics` at time `now_ms`.
    pub fn add_data_point_at(&mut self, metrics: &CacheMetrics, now_ms: u64)
        ensures
            final(self).period == old(self).period,
            final(self).max_points == old(self).max_points,
            final(self).data_points@ == with_point(old(self).data_points@, point_of(*metrics, now_ms), old(self).max_points),
    {
        let point = TimeSeriesDataPoint {
            timestamp_ms: now_ms,
            hit_count: metrics.hit_count,
            item_count: metrics.item_count,
            get_count: metrics.get_count,
            put_count: metrics.put_count,
            avg_get_time_us: metrics.avg_get_time_us,
        };
        self.data_points.push(point);
        if self.data_points.len() > self.max_points {
            let _ = self.data_points.remove(0);
        }
    }

    /// Add a data point taken from `metrics` now.
    pub fn add_data_point(&mut self, metrics: &CacheMetrics)
        ensures
            final(self).period == old(self).period,
            final(self).max_points == old(self).max_points,
            exists|p: TimeSeriesDataPoint| #[trigger] with_point(old(self).data_points@, p, old(self).max_points)
                == final(self).data_points@ && p.hit_count == metrics.hit_count && p.get_count == metrics.get_count,
    {
        let now = crate::clock::now_millis();
        self.add_data_point_at(metrics, now);
    }
}

/// The point a series takes of `m` at time `now_ms`.
pub open spec fn point_of(m: CacheMetrics, now_ms: u64) -> TimeSeriesDataPoint {
    TimeSeriesDataPoint {
        timestamp_ms: now_ms,
        hit_count: m.hit_count,
        item_count: m.item_count,
        get_count: m.get_count,
        put_count: m.put_count,
        avg_get_time_us: m.avg_get_time_us,
    }
}

/// `after` is `before` with the point `p` added to every series.
pub open spec fn all_with_point(before: Seq<TimeSeriesMetrics>, after: Seq<TimeSeriesMetrics>, p: TimeSeriesDataPoint) -> bool {
    &&& after.len() == before.len()
    &&& forall|i: int| 0 <= i < before.len() ==> {
        &&& (#[trigger] after[i]).period == before[i].period
        &&& after[i].max_points == before[i].max_points
        &&& after[i].data_points@ == with_point(before[i].data_points@, p, before[i].max_points)
    }
}

/// A series never holds more points than it keeps: adding a point to one
/// within its limit leaves it within its limit.
pub proof fn law_series_bounded(ps: Seq<TimeSeriesDataPoint>, p: TimeSeriesDataPoint, max: usize)
    requires
        ps.len() <= max,
    ensures
        with_point(ps, p, max).len() <= max,
{
}

/// The counts of `after` are those of `before`, one more get recorded, a hit
/// when `hit`.
pub open spec fn get_recorded(before: CacheMetrics, after: CacheMetrics, hit: bool) -> bool {
    &&& after.get_count == before.get_count + 1
    &&& after.hit_count == before.hit_count + if hit { 1int } else { 0int }
    &&& after.miss_count == before.miss_count + if hit { 0int } else { 1int }
    &&& after.put_count == before.put_count
    &&& after.remove_count == before.remove_count
    &&& after.clear_count == before.clear_count
    &&& after.eviction_count == before.eviction_count
    &&& after.error_count == before.error_count
    &&& after.item_count == before.item_count
    &&& after.name == before.name
    &&& after.cache_type == before.cache_type
    &&& after.capacity == before.capacity
    &&& after.ttl == before.ttl
}

/// The counts of `after` are those of `before`, one more successful
/// `op` (a put, remove or clear) recorded, and `items` items held.
pub open spec fn change_recorded(before: CacheMetrics, after: CacheMetrics, op: CacheOperation, items: int) -> bool {
    &&& after.get_count == before.get_count
    &&& after.hit_count == before.hit_count
    &&& after.miss_count == before.miss_count
    &&& after.put_count == before.put_count + if op == CacheOperation::Put { 1int } else { 0int }
    &&& after.remove_count == before.remove_count + if op == CacheOperation::Remove { 1int } else { 0int }
    &&& after.clear_count == before.clear_count + if op == CacheOperation::Clear { 1int } else { 0int }
    &&& after.eviction_count == before.eviction_count
    &&& after.error_count == before.error_count
    &&& after.item_count == items
    &&& after.name == before.name
    &&& after.cache_type == before.cache_type
    &&& after.capacity == before.capacity
    &&& after.ttl == before.ttl
}

/// The counters can take one more operation.
pub open spec fn room_to_count(m: CacheMetrics) -> bool {
    &&& m.get_count < u64::MAX
    &&& m.hit_count < u64::MAX
    &&& m.miss_count < u64::MAX
    &&& m.put_count < u64::MAX
    &&& m.remove_count < u64::MAX
    &&& m.clear_count < u64::MAX
    &&& m.eviction_count < u64::MAX
    &&& m.error_count < u64::MAX
}

/// A memory cache whose operations are counted and timed.
#[derive(Debug)]
pub struct MonitoredCache<V> {
    cache: MemoryCache<V>,
    metrics: CacheMetrics,
    collect_time_series: bool,
    time_series_interval: TimeSpan,
    time_series: Option<Vec<TimeSeriesMetrics>>,
}

/// A duration cut down so that adding it to `total` stays in range.
fn capped(total: u64, d: u64) -> (r: u64)
    ensures
        total + r <= u64::MAX,
        r <= d,
        r == if d > u64::MAX - total { (u64::MAX - total) as u64 } else { d },
{
    if d > u64::MAX - total { u64::MAX - total } else { d }
}

impl<V: Clone> MonitoredCache<V> {
    pub closed spec fn wf(&self) -> bool {
        &&& self.cache.wf()
        &&& self.metrics.hit_count <= self.metrics.get_count
    }

    /// The underlying cache, as a value.
    pub closed spec fn cache_view(&self) -> MemoryCache<V> {
        self.cache
    }

    /// The metrics, as a value.
    pub closed spec fn metrics_view(&self) -> CacheMetrics {
        self.metrics
    }

    /// Whether time series are being collected.
    pub closed spec fn collecting(&self) -> bool {
        self.collect_time_series
    }

    /// The time series, when enabled.
    pub closed spec fn series_view(&self) -> Option<Vec<TimeSeriesMetrics>> {
        self.time_series
    }

    /// The interval between two time series points.
    pub closed spec fn interval_view(&self) -> TimeSpan {
        self.time_series_interval
    }

    /// Create a monitored cache around `cache`, its metrics named.
    pub fn new(cache: MemoryCache<V>, name: &str, cache_type: &str) -> (r: Self)
        requires
            cache.wf(),
        ensures
            r.wf(),
            r.cache_view() == cache,
            r.metrics_view().name@ == name@,
            r.metrics_view().cache_type@ == cache_type@,
            r.metrics_view().get_count == 0 && r.metrics_view().hit_count == 0 && r.metrics_view().put_count == 0,
            room_to_count(r.metrics_view()),
            !r.collecting(),
            r.series_view() is None,
            r.interval_view() == (TimeSpan { millis: 60_000 }),
    {
        MonitoredCache {
            cache,
            metrics: CacheMetrics::new(name, cache_type),
            collect_time_series: false,
            time_series_interval: TimeSpan::from_secs(60),
            time_series: None,
        }
    }

    /// The metrics.
    pub fn metrics(&self) -> (r: &CacheMetrics)
        ensures
            *r == self.metrics_view(),
    {
        &self.metrics
    }

    /// The time series, when enabled.
    pub fn time_series(&self) -> (r: &Option<Vec<TimeSeriesMetrics>>)
        ensures
            *r == self.series_view(),
    {
        &self.time_series
    }

    /// Get a value at time `now`, counting a hit or a miss.
    pub fn get(&mut self, key: &String, now: u64) -> (r: Option<V>)
        requires
            old(self).wf(),
            room_to_count(old(self).metrics_view()),
        ensures
            final(self).wf(),
            get_result(old(self).cache_view().contents(), old(self).cache_view().time_to_live(), key@, now, r,
                final(self).cache_view().contents()),
            final(self).cache_view().capacity() == old(self).cache_view().capacity(),
            final(self).cache_view().time_to_live() == old(self).cache_view().time_to_live(),
            get_recorded(old(self).metrics_view(), final(self).metrics_view(), r is Some),
    {
        let start = crate::clock::utc_now_micros();
        let result = self.cache.get(key, now);
        let d = capped(self.metrics.total_get_time_us, crate::clock::micros_since(start));
        let outcome = match result {
            Some(_) => CacheResult::Hit,
            None => CacheResult::Miss,
        };
        self.metrics.record_operation(CacheOperation::Get, outcome, d);
        result
    }

    /// Put a value at time `now`, counting the put and the items held.
    pub fn put(&mut self, key: String, value: V, now: u64)
        requires
            old(self).wf(),
            room_to_count(old(self).metrics_view()),
        ensures
            final(self).wf(),
            put_result(old(self).cache_view().contents(), old(self).cache_view().capacity(),
                old(self).cache_view().time_to_live(), key@, value, now, final(self).cache_view().contents()),
            final(self).cache_view().capacity() == old(self).cache_view().capacity(),
            final(self).cache_view().time_to_live() == old(self).cache_view().time_to_live(),
            change_recorded(old(self).metrics_view(), final(self).metrics_view(), CacheOperation::Put,
                final(self).cache_view().contents().dom().len() as int),
    {
        let start = crate::clock::utc_now_micros();
        self.cache.put(key, value, now);
        let d = capped(self.metrics.total_put_time_us, crate::clock::micros_since(start));
        self.metrics.record_operation(CacheOperation::Put, CacheResult::Success, d);
        let n = self.cache.len();
        self.metrics.update_item_count(n);
    }

    /// Remove a value, counting the removal and the items held.
    pub fn remove(&mut self, key: &String)
        requires
            old(self).wf(),
            room_to_count(old(self).metrics_view()),
        ensures
            final(self).wf(),
            final(self).cache_view().contents() == old(self).cache_view().contents().remove((0int, key@)),
            final(self).cache_view().capacity() == old(self).cache_view().capacity(),
            final(self).cache_view().time_to_live() == old(self).cache_view().time_to_live(),
            change_recorded(old(self).metrics_view(), final(self).metrics_view(), CacheOperation::Remove,
                final(self).cache_view().contents().dom().len() as int),
    {
        let start = crate::clock::utc_now_micros();
        self.cache.remove(key);
        let d = crate::clock::micros_since(start);
        self.metrics.record_operation(CacheOperation::Remove, CacheResult::Success, d);
        let n = self.cache.len();
        self.metrics.update_item_count(n);
    }

    /// Clear the cache, counting the clear.
    pub fn clear(&mut self)
        requires
            old(self).wf(),
            room_to_count(old(self).metrics_view()),
        ensures
            final(self).wf(),
            final(self).cache_view().contents() == Map::<(int, Seq<char>), CacheEntry<V>>::empty(),
            final(self).cache_view().capacity() == old(self).cache_view().capacity(),
            final(self).cache_view().time_to_live() == old(self).cache_view().time_to_live(),
            change_recorded(old(self).metrics_view(), final(self).metrics_view(), CacheOperation::Clear, 0),
    {
        let start = crate::clock::utc_now_micros();
        self.cache.clear();
        let d = crate::clock::micros_since(start);
        self.metrics.record_operation(CacheOperation::Clear, CacheResult::Success, d);
        let n = self.cache.len();
        self.metrics.update_item_count(n);
    }

    /// The number of entries in the cache.
    pub fn len(&self) -> (r: usize)
        requires
            self.wf(),
        ensures
            r == self.cache_view().contents().dom().len(),
    {
        self.cache.len()
    }

    /// Reset the metrics, keeping capacity and time-to-live, and count the
    /// items held.
    pub fn reset_metrics(&mut self)
        requires
            old(self).wf(),
        ensures
            final(self).wf(),
            final(self).cache_view() == old(self).cache_view(),
            final(self).metrics_view().get_count == 0 && final(self).metrics_view().hit_count == 0,
            final(self).metrics_view().put_count == 0,
            final(self).metrics_view().item_count == old(self).cache_view().contents().dom().len(),
            final(self).metrics_view().name@ == old(self).metrics_view().name@,
            room_to_count(final(self).metrics_view()),
    {
        self.metrics.reset();
        let n = self.cache.len();
        self.metrics.update_item_count(n);
    }

    /// Set the capacity and time-to-live shown in the metrics.
    pub fn describe(&mut self, capacity: Option<usize>, ttl: Option<TimeSpan>)
        ensures
            old(self).wf() ==> final(self).wf(),
            final(self).cache_view() == old(self).cache_view(),
            final(self).metrics_view().capacity == capacity,
            final(self).metrics_view().ttl == ttl,
            final(self).metrics_view().get_count == old(self).metrics_view().get_count,
            final(self).metrics_view().name == old(self).metrics_view().name,
            final(self).metrics_view().cache_type == old(self).metrics_view().cache_type,
            room_to_count(old(self).metrics_view()) ==> room_to_count(final(self).metrics_view()),
    {
        self.metrics.set_capacity(capacity);
        self.metrics.set_ttl(ttl);
    }

    /// Collect time series for the given periods, each keeping at most the
    /// given number of points.
    pub fn enable_time_series(&mut self, periods: &Vec<(String, usize)>)
        ensures
            old(self).wf() ==> final(self).wf(),
            final(self).cache_view() == old(self).cache_view(),
            final(self).metrics_view() == old(self).metrics_view(),
            final(self).collecting(),
            final(self).interval_view() == old(self).interval_view(),
            final(self).series_view() is Some,
            ({
                let v = final(self).series_view()->0@;
                &&& v.len() == periods@.len()
                &&& forall|i: int| 0 <= i < v.len() ==> {
                    &&& (#[trigger] v[i]).period@ == periods@[i].0@
                    &&& v[i].max_points == periods@[i].1
                    &&& v[i].data_points@.len() == 0
                }
            }),
    {
        let mut series: Vec<TimeSeriesMetrics> = Vec::new();
        let mut i: usize = 0;
        while i < periods.len()
            invariant
                i <= periods@.len(),
                series@.len() == i,
                forall|j: int| 0 <= j < i ==> {
                    &&& (#[trigger] series@[j]).period@ == periods@[j].0@
                    &&& series@[j].max_points == periods@[j].1
                    &&& series@[j].data_points@.len() == 0
                },
            decreases periods@.len() - i,
        {
            let (name, max) = &periods[i];
            series.push(TimeSeriesMetrics::new(name.as_str(), *max));
            i = i + 1;
        }
        self.time_series = Some(series);
        self.collect_time_series = true;
    }

    /// Stop collecting time series.
    pub fn disable_time_series(&mut self)
        ensures
            old(self).wf() ==> final(self).wf(),
            final(self).cache_view() == old(self).cache_view(),
            final(self).metrics_view() == old(self).metrics_view(),
            !final(self).collecting(),
            final(self).series_view() == old(self).series_view(),
            final(self).interval_view() == old(self).interval_view(),
    {
        self.collect_time_series = false;
    }

    /// The interval between two time series points.
    pub fn time_series_interval(&self) -> (r: TimeSpan)
        ensures
            r == self.interval_view(),
    {
        self.time_series_interval
    }

    /// Take a time series point for every period, when collecting. Returns
    /// whether collection goes on.
    pub fn collect_time_series_point(&mut self) -> (r: bool)
        ensures
            old(self).wf() ==> final(self).wf(),
            r == old(self).collecting(),
            final(self).cache_view() == old(self).cache_view(),
            final(self).metrics_view() == old(self).metrics_view(),
            final(self).collecting() == old(self).collecting(),
            final(self).interval_view() == old(self).interval_view(),
            !old(self).collecting() || old(self).series_view() is None ==> final(self).series_view() == old(self).series_view(),
            old(self).collecting() && old(self).series_view() is Some ==> {
                &&& final(self).series_view() is Some
                &&& exists|now: u64| all_with_point(old(self).series_view()->0@, final(self).series_view()->0@,
                    #[trigger] point_of(old(self).metrics_view(), now))
            },
    {
        if !self.collect_time_series {
            return false;
        }
        let now = crate::clock::now_millis();
        let ghost p = point_of(self.metrics, now);
        let mut taken: Option<Vec<TimeSeriesMetrics>> = None;
        std::mem::swap(&mut taken, &mut self.time_series);
        match taken {
            Some(mut series) => {
                let ghost orig = series@;
                let mut i: usize = 0;
                let n = series.len();
                while i < n
                    invariant
                        i <= n,
                        series@.len() == n,
                        orig.len() == n,
                        p == point_of(self.metrics, now),
                        forall|j: int| i <= j < n ==> #[trigger] series@[j] == orig[j],
                        forall|j: int| 0 <= j < i ==> {
                            &&& (#[trigger] series@[j]).period == orig[j].period
                            &&& series@[j].max_points == orig[j].max_points
                            &&& series@[j].data_points@ == with_point(orig[j].data_points@, p, orig[j].max_points)
                        },
                    decreases n - i,
                {
                    let mut s = series.remove(i);
                    s.add_data_point_at(&self.metrics, now);
                    series.insert(i, s);
                    i = i + 1;
                }
                assert(all_with_point(orig, series@, p));
                self.time_series = Some(series);
            },
            None => {},
        }
        true
    }

    /// A one-line summary of the metrics.
    pub fn get_metrics_summary(&self) -> (r: String)
        requires
            self.wf(),
        ensures
            r@ == crate::repositories::metrics::summary_text(self.metrics_view()),
    {
        self.metrics.summary()
    }
}

/// Factory for creating monitored caches.
#[derive(Debug)]
pub struct MonitoredCacheFactory;

impl MonitoredCacheFactory {
    /// A monitored memory cache, its metrics showing its capacity and
    /// time-to-live.
    pub fn memory_cache<V: Clone>(name: &str, max_entries: usize, ttl: Option<TimeSpan>) -> (r: MonitoredCache<V>)
        ensures
            r.wf(),
            r.cache_view().contents() == Map::<(int, Seq<char>), CacheEntry<V>>::empty(),
            r.cache_view().capacity() == max_entries,
            r.cache_view().time_to_live() == ttl,
            r.metrics_view().name@ == name@,
            r.metrics_view().cache_type@ == "memory"@,
            r.metrics_view().capacity == Some(max_entries),
            r.metrics_view().ttl == ttl,
            r.metrics_view().get_count == 0,
            room_to_count(r.metrics_view()),
    {
        let cache = MemoryCache::new(max_entries, ttl);
        let mut monitored = MonitoredCache::new(cache, name, "memory");
        monitored.describe(Some(max_entries), ttl);
        monitored
    }
}

/// The error of an operation on a cache that is not registered.
#[derive(Debug, Clone, PartialEq, Eq)]
pub enum CollectorError {
    /// No cache is registered under the name
    NotFound(String),
}

/// Collects the metrics of named monitored caches, which it holds.
#[derive(Debug)]
pub struct MetricsCollector<V> {
    caches: KeyedMap<String, MonitoredCache<V>>,
}

/// The summary line of one cache in the collector's summary.
pub open spec fn summary_line(name: Seq<char>, m: CacheMetrics) -> Seq<char> {
    "- "@ + name + ": "@ + summary_text(m) + "\n"@
}

/// The lines of the caches of `entries`, in order.
pub open spec fn summary_lines<V: Clone>(entries: Seq<(String, MonitoredCache<V>)>) -> Seq<char>
    decreases entries.len(),
{
    if entries.len() == 0 {
        Seq::empty()
    } else {
        summary_lines(entries.drop_last()) + summary_line(entries.last().0@, entries.last().1.metrics_view())
    }
}

impl<V: Clone> MetricsCollector<V> {
    /// The names are distinct and every cache is well formed.
    pub closed spec fn wf(&self) -> bool {
        &&& self.caches.wf()
        &&& forall|k: (int, Seq<char>)| #[trigger] self.caches.view_map().dom().contains(k) ==> self.caches.view_map()[k].wf()
    }

    /// The caches by name.
    pub closed spec fn caches_view(&self) -> Map<(int, Seq<char>), MonitoredCache<V>> {
        self.caches.view_map()
    }

    /// The names of the registered caches, in order of registration.
    pub closed spec fn names(&self) -> Seq<(int, Seq<char>)> {
        self.caches.key_seq()
    }

    /// The registered caches with their names, in order of registration.
    pub closed spec fn entries(&self) -> Seq<(String, MonitoredCache<V>)> {
        self.caches.entry_seq()
    }

    /// A collector without caches.
    pub fn new() -> (r: Self)
        ensures
            r.wf(),
            r.caches_view() == Map::<(int, Seq<char>), MonitoredCache<V>>::empty(),
            r.entries().len() == 0,
    {
        MetricsCollector { caches: KeyedMap::new() }
    }

    /// Register a cache under a name, replacing one registered under it.
    pub fn register_cache(&mut self, name: &str, cache: MonitoredCache<V>)
        requires
            old(self).wf(),
            cache.wf(),
        ensures
            final(self).wf(),
            final(self).caches_view() == old(self).caches_view().insert((0int, name@), cache),
    {
        self.caches.insert(name.to_owned(), cache);
    }

    /// Unregister the cache registered under a name, if any.
    pub fn unregister_cache(&mut self, name: &str)
        requires
            old(self).wf(),
        ensures
            final(self).wf(),
            final(self).caches_view() == old(self).caches_view().remove((0int, name@)),
    {
        let _ = self.caches.remove(&name.to_owned());
    }

    /// The cache registered under a name, to use and change in place.
    pub fn cache_mut(&mut self, name: &str) -> (r: Option<&mut MonitoredCache<V>>)
        requires
            old(self).wf(),
        ensures
            r is None ==> !old(self).caches_view().dom().contains((0int, name@)) && *final(self) == *old(self),
            r is Some ==> old(self).caches_view().dom().contains((0int, name@)),
            r is Some ==> *r->0 == old(self).caches_view()[(0int, name@)],
            r is Some ==> final(self).caches_view() == old(self).caches_view().insert((0int, name@), *final(r->0)),
            r is Some ==> (final(r->0).wf() ==> final(self).wf()),
            r is Some ==> final(self).names() == old(self).names(),
    {
        let key = name.to_owned();
        let r = self.caches.get_mut(&key);
        r
    }

    /// The metrics of a registered cache.
    pub fn get_cache_metrics(&self, name: &str) -> (r: Option<CacheMetrics>)
        requires
            self.wf(),
        ensures
            r is None ==> !self.caches_view().dom().contains((0int, name@)),
            r is Some ==> self.caches_view().dom().contains((0int, name@))
                && r->0 == self.caches_view()[(0int, name@)].metrics_view(),
    {
        match self.caches.get(&name.to_owned()) {
            Some(c) => Some(c.metrics().duplicate()),
            None => None,
        }
    }

    /// The metrics of every cache with its name, in order of registration.
    pub fn get_all_metrics(&self) -> (r: Vec<(String, CacheMetrics)>)
        requires
            self.wf(),
        ensures
            r@.len() == self.entries().len(),
            forall|i: int| 0 <= i < r@.len() ==> (#[trigger] r@[i]).0@ == self.entries()[i].0@
                && r@[i].1 == self.entries()[i].1.metrics_view(),
    {
        let mut out: Vec<(String, CacheMetrics)> = Vec::new();
        let mut i: usize = 0;
        while i < self.caches.len()
            invariant
                i <= self.entries().len(),
                out@.len() == i,
                self.entries() == self.caches.entry_seq(),
                forall|j: int| 0 <= j < i ==> (#[trigger] out@[j]).0@ == self.entries()[j].0@
                    && out@[j].1 == self.entries()[j].1.metrics_view(),
            decreases self.entries().len() - i,
        {
            let e = self.caches.entry_at(i);
            out.push((e.0.clone(), e.1.metrics().duplicate()));
            i = i + 1;
        }
        out
    }

    /// Reset the metrics of a registered cache.
    pub fn reset_cache_metrics(&mut self, name: &str) -> (r: Result<(), CollectorError>)
        requires
            old(self).wf(),
        ensures
            final(self).wf(),
            final(self).caches_view().dom() == old(self).caches_view().dom(),
            r is Err <==> !old(self).caches_view().dom().contains((0int, name@)),
            r matches Err(CollectorError::NotFound(n)) ==> n@ == name@,
            r is Ok ==> final(self).caches_view()[(0int, name@)].metrics_view().hit_count == 0
                && final(self).caches_view()[(0int, name@)].metrics_view().get_count == 0,
            forall|k: (int, Seq<char>)| k != (0int, name@) && #[trigger] old(self).caches_view().dom().contains(k)
                ==> final(self).caches_view()[k] == old(self).caches_view()[k],
            final(self).names() == old(self).names(),
    {
        let ghost before = self.caches.view_map();
        match self.cache_mut(name) {
            Some(c) => {
                proof { assert(before.dom().contains((0int, name@))); }
                c.reset_metrics();
                Ok(())
            },
            None => Err(CollectorError::NotFound(name.to_owned())),
        }
    }

    /// Reset the metrics of every registered cache.
    pub fn reset_all_metrics(&mut self)
        requires
            old(self).wf(),
        ensures
            final(self).wf(),
            final(self).caches_view().dom() == old(self).caches_view().dom(),
            forall|k: (int, Seq<char>)| #[trigger] final(self).caches_view().dom().contains(k)
                ==> final(self).caches_view()[k].metrics_view().get_count == 0
                && final(self).caches_view()[k].metrics_view().hit_count == 0,
    {
        let n = self.caches.len();
        let ghost keys = self.caches.key_seq();
        proof { self.caches.lemma_dom_len(); }
        let mut i: usize = 0;
        while i < n
            invariant
                self.wf(),
                i <= n,
                n == keys.len(),
                self.caches.key_seq() == keys,
                self.caches_view().dom() == old(self).caches_view().dom(),
                forall|j: int| 0 <= j < i ==> #[trigger] self.caches_view()[keys[j]].metrics_view().get_count == 0
                    && self.caches_view()[keys[j]].metrics_view().hit_count == 0,
            decreases n - i,
        {
            let name = self.caches.entry_at(i).0.clone();
            proof {
                self.caches.lemma_entry_in_view(i as int);
                assert(keys[i as int] == (0int, name@));
            }
            let ghost before = self.caches_view();
            let _ = self.reset_cache_metrics(name.as_str());
            proof {
                assert forall|j: int| 0 <= j <= i implies #[trigger] self.caches_view()[keys[j]].metrics_view().get_count == 0
                    && self.caches_view()[keys[j]].metrics_view().hit_count == 0 by {
                    if j < i {
                        self.caches.lemma_dom_len();
                        assert(before.dom().contains(keys[j]));
                    }
                }
            }
            i = i + 1;
        }
        proof {
            assert forall|k: (int, Seq<char>)| #[trigger] self.caches_view().dom().contains(k)
                implies self.caches_view()[k].metrics_view().get_count == 0
                && self.caches_view()[k].metrics_view().hit_count == 0 by {
                let j = choose|j: int| 0 <= j < self.caches.entry_seq().len()
                    && #[trigger] self.caches.entry_seq()[j].0.lookup_key() == k;
                assert(keys[j] == k);
            }
        }
    }

    /// A summary of the metrics of every cache: a heading with the number of
    /// caches, then one line per cache in order of registration.
    pub fn get_summary(&self) -> (r: String)
        requires
            self.wf(),
        ensures
            r@ == "Cache Metrics Summary ("@ + decimal(self.entries().len()) + " caches):\n"@ + summary_lines(self.entries()),
    {
        let mut s = "Cache Metrics Summary (".to_owned();
        append_decimal(&mut s, self.caches.len());
        s.append(" caches):\n");
        let ghost head = s@;
        let mut i: usize = 0;
        while i < self.caches.len()
            invariant
                self.wf(),
                i <= self.entries().len(),
                self.entries() == self.caches.entry_seq(),
                s@ == head + summary_lines(self.entries().take(i as int)),
            decreases self.entries().len() - i,
        {
            let e = self.caches.entry_at(i);
            proof {
                self.caches.lemma_entry_in_view(i as int);
            }
            s.append("- ");
            s.append(e.0.as_str());
            s.append(": ");
            let line = e.1.get_metrics_summary();
            s.append(line.as_str());
            s.append("\n");
            proof {
                let t = self.entries().take(i + 1);
                assert(t.drop_last() =~= self.entries().take(i as int));
                assert(s@ =~= head + summary_lines(t));
            }
            i = i + 1;
        }
        assert(self.entries().take(i as int) =~= self.entries());
        s
    }
}

} // verus!
