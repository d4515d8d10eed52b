use vstd::prelude::*;
use crate::repositories::glob::{glob_match, pattern_match};
use crate::repositories::memory_cache::{put_result, CacheEntry, MemoryCache};
use crate::time_span::TimeSpan;
use crate::clock::earliest_time_ms;
use vstd::string::*;
use vstd::utf8::encode_utf8;

verus! {

/// Cache warming configuration.
#[derive(Debug)]
pub struct WarmingConfig {
    /// Maximum number of items to warm
    pub max_items: usize,
    /// Batch size for loading items
    pub batch_size: usize,
    /// Warming interval for scheduled warming
    pub interval: Option<TimeSpan>,
    /// Whether to warm the cache on startup
    pub warm_on_startup: bool,
    /// Whether to warm the cache in the background
    pub background: bool,
    /// Patterns to include in warming
    pub include_patterns: Vec<String>,
    /// Patterns to exclude from warming
    pub exclude_patterns: Vec<String>,
}

/// Two configurations say the same.
pub open spec fn same_config(a: WarmingConfig, b: WarmingConfig) -> bool {
    &&& a.max_items == b.max_items
    &&& a.batch_size == b.batch_size
    &&& a.interval == b.interval
    &&& a.warm_on_startup == b.warm_on_startup
    &&& a.background == b.background
    &&& a.include_patterns@ == b.include_patterns@
    &&& a.exclude_patterns@ == b.exclude_patterns@
}

/// The default configuration: up to 1000 items in batches of 100, no
/// schedule, warming on startup and in the background, no patterns.
pub open spec fn default_config(c: WarmingConfig) -> bool {
    &&& c.max_items == 1000
    &&& c.batch_size == 100
    &&& c.interval is None
    &&& c.warm_on_startup
    &&& c.background
    &&& c.include_patterns@.len() == 0
    &&& c.exclude_patterns@.len() == 0
}

impl Default for WarmingConfig {
    fn default() -> (r: Self)
        ensures
            default_config(r),
    {
        WarmingConfig {
            max_items: 1000,
            batch_size: 100,
            interval: None,
            warm_on_startup: true,
            background: true,
            include_patterns: Vec::new(),
            exclude_patterns: Vec::new(),
        }
    }
}

fn copy_strings(v: &Vec<String>) -> (r: Vec<String>)
    ensures
        r@ == v@,
{
    let mut out: Vec<String> = Vec::new();
    let mut i: usize = 0;
    while i < v.len()
        invariant
            i <= v@.len(),
            out@ == v@.subrange(0, i as int),
        decreases v@.len() - i,
    {
        out.push(v[i].clone());
        i = i + 1;
    }
    assert(out@ =~= v@);
    out
}

impl WarmingConfig {
    /// A copy of the configuration.
    pub fn duplicate(&self) -> (r: Self)
        ensures
            same_config(r, *self),
    {
        WarmingConfig {
            max_items: self.max_items,
            batch_size: self.batch_size,
            interval: self.interval,
            warm_on_startup: self.warm_on_startup,
            background: self.background,
            include_patterns: copy_strings(&self.include_patterns),
            exclude_patterns: copy_strings(&self.exclude_patterns),
        }
    }
}

/// `states` runs through the contents a cache holding `states[0]` goes
/// through as `items` are put one after the other at time `now`.
pub open spec fn put_chain<V>(
    states: Seq<Map<(int, Seq<char>), CacheEntry<V>>>,
    cap: usize,
    ttl: Option<TimeSpan>,
    items: Seq<(String, V)>,
    now: u64,
) -> bool {
    &&& states.len() == items.len() + 1
    &&& forall|i: int| 0 <= i < items.len() ==> put_result(#[trigger] states[i], cap, ttl, items[i].0@, items[i].1, now, states[i + 1])
}

/// `after` is what putting `items` one after the other at time `now` leaves
/// of a cache holding `before`.
pub open spec fn put_all<V>(
    before: Map<(int, Seq<char>), CacheEntry<V>>,
    cap: usize,
    ttl: Option<TimeSpan>,
    items: Seq<(String, V)>,
    now: u64,
    after: Map<(int, Seq<char>), CacheEntry<V>>,
) -> bool {
    exists|states: Seq<Map<(int, Seq<char>), CacheEntry<V>>>|
        #[trigger] put_chain(states, cap, ttl, items, now) && states[0] == before && states.last() == after
}

/// The smaller of two sizes.
pub open spec fn min_size(a: int, b: int) -> int {
    if a <= b { a } else { b }
}

/// Putting nothing leaves a cache as it is.
proof fn lemma_put_all_empty<V>(a: Map<(int, Seq<char>), CacheEntry<V>>, cap: usize, ttl: Option<TimeSpan>, now: u64)
    ensures
        put_all(a, cap, ttl, Seq::empty(), now, a),
{
    assert(put_chain(seq![a], cap, ttl, Seq::<(String, V)>::empty(), now));
}

/// Putting one item is a run of one put.
proof fn lemma_put_all_one<V>(
    a: Map<(int, Seq<char>), CacheEntry<V>>,
    b: Map<(int, Seq<char>), CacheEntry<V>>,
    cap: usize,
    ttl: Option<TimeSpan>,
    item: (String, V),
    now: u64,
)
    requires
        put_result(a, cap, ttl, item.0@, item.1, now, b),
    ensures
        put_all(a, cap, ttl, seq![item], now, b),
{
    let st = seq![a, b];
    assert(put_chain(st, cap, ttl, seq![item], now));
}

/// Two runs of puts, one after the other, are a run of puts.
proof fn lemma_put_all_concat<V>(
    a: Map<(int, Seq<char>), CacheEntry<V>>,
    b: Map<(int, Seq<char>), CacheEntry<V>>,
    c: Map<(int, Seq<char>), CacheEntry<V>>,
    cap: usize,
    ttl: Option<TimeSpan>,
    s1: Seq<(String, V)>,
    s2: Seq<(String, V)>,
    now: u64,
)
    requires
        put_all(a, cap, ttl, s1, now, b),
        put_all(b, cap, ttl, s2, now, c),
    ensures
        put_all(a, cap, ttl, s1 + s2, now, c),
{
    let st1 = choose|st: Seq<Map<(int, Seq<char>), CacheEntry<V>>>|
        #[trigger] put_chain(st, cap, ttl, s1, now) && st[0] == a && st.last() == b;
    let st2 = choose|st: Seq<Map<(int, Seq<char>), CacheEntry<V>>>|
        #[trigger] put_chain(st, cap, ttl, s2, now) && st[0] == b && st.last() == c;
    let st = st1 + st2.skip(1);
    let s = s1 + s2;
    let n1 = s1.len() as int;
    assert forall|i: int| 0 <= i < s.len() implies put_result(#[trigger] st[i], cap, ttl, s[i].0@, s[i].1, now, st[i + 1]) by {
        if i < n1 {
            assert(st[i] == st1[i]);
            assert(st[i + 1] == st1[i + 1]);
            assert(s[i] == s1[i]);
        } else {
            let j = i - n1;
            assert(st[i] == st2[j]);
            assert(st[i + 1] == st2[j + 1]);
            assert(s[i] == s2[j]);
            assert(put_result(st2[j], cap, ttl, s2[j].0@, s2[j].1, now, st2[j + 1]));
        }
    }
    assert(put_chain(st, cap, ttl, s, now));
    assert(st[0] == a);
    assert(st.last() == c);
}

/// The cache went from `before` to `after` by putting some items one after
/// the other at `now`; `count`, when given, is how many (at most
/// `usize::MAX`).
pub open spec fn warmed_by<V>(
    before: Map<(int, Seq<char>), CacheEntry<V>>,
    after: Map<(int, Seq<char>), CacheEntry<V>>,
    cap: usize,
    ttl: Option<TimeSpan>,
    now: u64,
    count: Option<usize>,
) -> bool {
    exists|items: Seq<(String, V)>| #![trigger items.len()]
        put_all(before, cap, ttl, items, now, after)
        && (count matches Some(n) ==> n == min_size(items.len() as int, usize::MAX as int))
}

/// Puts the first `limit` of `items` (all of them, if fewer) into the cache
/// at time `now`, in order. Returns how many were put.
fn put_items<V: Clone>(cache: &mut MemoryCache<V>, items: Vec<(String, V)>, limit: usize, now: u64) -> (r: usize)
    requires
        old(cache).wf(),
    ensures
        final(cache).wf(),
        final(cache).capacity() == old(cache).capacity(),
        final(cache).time_to_live() == old(cache).time_to_live(),
        r == min_size(items@.len() as int, limit as int),
        put_all(old(cache).contents(), old(cache).capacity(), old(cache).time_to_live(),
            items@.take(r as int), now, final(cache).contents()),
{
    let ghost all = items@;
    let ghost cap = cache.capacity();
    let ghost ttl = cache.time_to_live();
    let mut rest = items;
    let mut count: usize = 0;
    let ghost mut states = seq![cache.contents()];
    while count < limit && rest.len() > 0
        invariant
            cache.wf(),
            cap == old(cache).capacity(),
            ttl == old(cache).time_to_live(),
            cache.capacity() == cap,
            cache.time_to_live() == ttl,
            count <= limit,
            count <= all.len(),
            rest@ == all.skip(count as int),
            put_chain(states, cap, ttl, all.take(count as int), now),
            states[0] == old(cache).contents(),
            states.last() == cache.contents(),
        decreases all.len() - count,
    {
        let (key, value) = rest.remove(0);
        assert(all[count as int] == (key, value));
        cache.put(key, value, now);
        proof {
            let t = all.take(count + 1);
            let ns = states.push(cache.contents());
            assert forall|i: int| 0 <= i < t.len() implies
                put_result(#[trigger] ns[i], cap, ttl, t[i].0@, t[i].1, now, ns[i + 1]) by {
                if i < count {
                    assert(ns[i] == states[i] && ns[i + 1] == states[i + 1]);
                    assert(t[i] == all.take(count as int)[i]);
                }
            }
            states = ns;
        }
        count = count + 1;
    }
    count
}

/// What a warmer is called and how it is configured.
pub trait CacheWarmer {
    /// Get the name of the warming strategy.
    fn name(&self) -> &'static str;

    /// Get the configuration of the warming strategy.
    fn config(&self) -> WarmingConfig;
}

/// A failure reported by a data loader.
#[derive(Debug, Clone, PartialEq, Eq)]
pub struct LoadError {
    pub message: String,
}

/// Loads the data that warmers put into a cache. It is implemented by the
/// users of the warmers, and nothing is assumed of what it returns.
pub trait DataLoader<V> {
    /// Load a single item by key
    fn load_one(&self, key: &String) -> Result<Option<V>, LoadError>;

    /// Load the items of the given keys that exist
    fn load_many(&self, keys: &[String]) -> Result<Vec<(String, V)>, LoadError>;

    /// Load all items
    fn load_all(&self) -> Result<Vec<(String, V)>, LoadError>;

    /// Get keys for frequently accessed items
    fn get_frequent_keys(&self, limit: usize) -> Result<Vec<String>, LoadError>;

    /// Get keys for recently accessed items
    fn get_recent_keys(&self, limit: usize) -> Result<Vec<String>, LoadError>;

    /// Get keys for items that match the given pattern
    fn get_pattern_keys(&self, pattern: &str) -> Result<Vec<String>, LoadError>;
}

/// The keys `keys[start..end]`, copied.
fn batch_of(keys: &Vec<String>, start: usize, end: usize) -> (r: Vec<String>)
    requires
        start <= end <= keys@.len(),
    ensures
        r@ == keys@.subrange(start as int, end as int),
{
    let mut out: Vec<String> = Vec::new();
    let mut i: usize = start;
    while i < end
        invariant
            start <= i <= end,
            end <= keys@.len(),
            out@ == keys@.subrange(start as int, i as int),
        decreases end - i,
    {
        out.push(keys[i].clone());
        i = i + 1;
    }
    out
}

/// Where the batch of at most `size` keys from `start` ends, in a list of
/// `len` keys.
fn batch_end(start: usize, size: usize, len: usize) -> (r: usize)
    requires
        start < len,
        size > 0,
    ensures
        start < r <= len,
        r == min_size(start + size, len as int),
{
    if size >= len - start { len } else { start + size }
}

/// Eager loading cache warming strategy: everything the loader holds, up to
/// the configured number of items.
#[derive(Debug)]
pub struct EagerWarmer {
    /// Warming configuration
    pub config: WarmingConfig,
}

impl EagerWarmer {
    /// Create a new eager warming strategy.
    pub fn new(config: WarmingConfig) -> (r: Self)
        ensures
            r.config == config,
    {
        EagerWarmer { config }
    }

    /// Create a new eager warming strategy with the default configuration.
    pub fn default() -> (r: Self)
        ensures
            default_config(r.config),
    {
        Self::new(WarmingConfig::default())
    }

    /// Warm the cache at time `now` with the items the loader holds: the first
    /// `max_items` of them, in order. Returns how many items were warmed.
    pub fn warm<V: Clone>(&self, cache: &mut MemoryCache<V>, items: Vec<(String, V)>, now: u64) -> (r: usize)
        requires
            old(cache).wf(),
        ensures
            final(cache).wf(),
            final(cache).capacity() == old(cache).capacity(),
            final(cache).time_to_live() == old(cache).time_to_live(),
            r == min_size(items@.len() as int, self.config.max_items as int),
            put_all(old(cache).contents(), old(cache).capacity(), old(cache).time_to_live(),
                items@.take(r as int), now, final(cache).contents()),
    {
        put_items(cache, items, self.config.max_items, now)
    }
}

impl EagerWarmer {
    /// Warm the cache with everything the loader holds, up to the
    /// configured number of items. A failure of the loader is handed back
    /// and leaves the cache as it was.
    pub fn warm_from<V: Clone, L: DataLoader<V>>(&self, cache: &mut MemoryCache<V>, loader: &L, now: u64)
        -> (r: Result<usize, LoadError>)
        requires
            old(cache).wf(),
        ensures
            final(cache).wf(),
            final(cache).capacity() == old(cache).capacity(),
            final(cache).time_to_live() == old(cache).time_to_live(),
            r is Err ==> final(cache).contents() == old(cache).contents(),
            r matches Ok(n) ==> exists|items: Seq<(String, V)>| #![trigger items.len()]
                n == min_size(items.len() as int, self.config.max_items as int)
                && put_all(old(cache).contents(), old(cache).capacity(), old(cache).time_to_live(),
                    items.take(n as int), now, final(cache).contents()),
    {
        match loader.load_all() {
            Ok(items) => {
                let ghost all = items@;
                let n = self.warm(cache, items, now);
                assert(n == min_size(all.len() as int, self.config.max_items as int));
                Ok(n)
            },
            Err(e) => Err(e),
        }
    }
}

impl CacheWarmer for EagerWarmer {
    fn name(&self) -> (r: &'static str)
        ensures
            r@ == "eager"@,
    {
        "eager"
    }

    fn config(&self) -> (r: WarmingConfig)
        ensures
            same_config(r, self.config),
    {
        self.config.duplicate()
    }
}

/// The keys of `v`, taken by their text.
pub open spec fn key_texts(v: Seq<String>) -> Seq<Seq<char>> {
    v.map_values(|s: String| s@)
}

/// Takes the keys of `keys` in order into `held`, skipping those it holds,
/// and stops after the first key that leaves it holding `max` or more.
pub open spec fn gather(held: Seq<Seq<char>>, keys: Seq<Seq<char>>, max: int) -> Seq<Seq<char>>
    decreases keys.len(),
{
    if keys.len() == 0 {
        held
    } else {
        let h = if held.contains(keys[0]) { held } else { held.push(keys[0]) };
        if h.len() >= max { h } else { gather(h, keys.drop_first(), max) }
    }
}

/// Predictive loading cache warming strategy: the most frequently and most
/// recently accessed keys. Times are in milliseconds.
#[derive(Debug)]
pub struct PredictiveWarmer {
    /// Warming configuration
    pub config: WarmingConfig,
    /// Access frequency threshold
    pub frequency_threshold: u64,
    /// Recent access threshold: accesses after this time count as recent
    pub recency_threshold_ms: i64,
}

/// The time `span` before `now_ms`; a span longer than the longest time
/// difference (`i64::MAX` milliseconds) counts as none.
pub open spec fn recency_cutoff(now_ms: i64, span: TimeSpan) -> int {
    if span.millis > i64::MAX { now_ms as int } else { now_ms - span.millis }
}

impl PredictiveWarmer {
    /// Create a new predictive warming strategy at time `now_ms`: accesses
    /// after `recency_threshold` before it count as recent.
    pub fn new_at(config: WarmingConfig, frequency_threshold: u64, recency_threshold: TimeSpan, now_ms: i64) -> (r: Self)
        requires
            recency_cutoff(now_ms, recency_threshold) >= earliest_time_ms(),
        ensures
            r.config == config,
            r.frequency_threshold == frequency_threshold,
            r.recency_threshold_ms == recency_cutoff(now_ms, recency_threshold),
    {
        let recency_threshold_ms = if recency_threshold.millis > 9_223_372_036_854_775_807u64 {
            now_ms
        } else {
            now_ms - recency_threshold.millis as i64
        };
        PredictiveWarmer { config, frequency_threshold, recency_threshold_ms }
    }

    /// Create a new predictive warming strategy: accesses within
    /// `recency_threshold` of now count as recent. When that reaches back
    /// before the earliest time there is, the earliest time is taken.
    pub fn new(config: WarmingConfig, frequency_threshold: u64, recency_threshold: TimeSpan) -> (r: Self)
        ensures
            r.config == config,
            r.frequency_threshold == frequency_threshold,
            r.recency_threshold_ms >= earliest_time_ms(),
    {
        let now = crate::clock::utc_now_millis();
        let reaches_back = recency_threshold.millis <= 9_223_372_036_854_775_807u64
            && (recency_threshold.millis as i128) > (now as i128) + 8_334_601_315_200_000i128;
        if reaches_back {
            PredictiveWarmer { config, frequency_threshold, recency_threshold_ms: -8_334_601_315_200_000 }
        } else {
            Self::new_at(config, frequency_threshold, recency_threshold, now)
        }
    }

    /// Create a new predictive warming strategy with the default
    /// configuration: ten accesses, within the last 24 hours.
    pub fn default() -> (r: Self)
        ensures
            default_config(r.config),
            r.frequency_threshold == 10,
    {
        Self::new(WarmingConfig::default(), 10, TimeSpan::from_secs(60 * 60 * 24))
    }

    /// The keys to warm: the frequently accessed keys, then the recently
    /// accessed ones, each once, as `gather` takes them from each list in
    /// turn.
    pub fn select_keys(&self, frequent: &Vec<String>, recent: &Vec<String>) -> (r: Vec<String>)
        ensures
            key_texts(r@) == gather(
                gather(Seq::empty(), key_texts(frequent@), self.config.max_items as int),
                key_texts(recent@),
                self.config.max_items as int,
            ),
    {
        let max = self.config.max_items;
        let mut out: Vec<String> = Vec::new();
        assert(key_texts(out@) =~= Seq::<Seq<char>>::empty());
        Self::gather_into(&mut out, frequent, max);
        Self::gather_into(&mut out, recent, max);
        out
    }

    /// Gathers `keys` into `out` as `gather` says.
    fn gather_into(out: &mut Vec<String>, keys: &Vec<String>, max: usize)
        ensures
            key_texts(final(out)@) == gather(key_texts(old(out)@), key_texts(keys@), max as int),
    {
        let ghost target = gather(key_texts(out@), key_texts(keys@), max as int);
        let mut i: usize = 0;
        let mut stopped = false;
        assert(key_texts(keys@).skip(0) =~= key_texts(keys@));
        while i < keys.len() && !stopped
            invariant
                i <= keys@.len(),
                target == gather(key_texts(old(out)@), key_texts(keys@), max as int),
                stopped ==> key_texts(out@) == target,
                !stopped ==> target == gather(key_texts(out@), key_texts(keys@).skip(i as int), max as int),
            decreases keys@.len() - i,
        {
            let ghost rest = key_texts(keys@).skip(i as int);
            assert(rest[0] == keys@[i as int]@);
            assert(rest.drop_first() =~= key_texts(keys@).skip(i + 1));
            Self::insert_new(out, &keys[i]);
            i = i + 1;
            if out.len() >= max {
                stopped = true;
            }
        }
        proof {
            if !stopped {
                assert(key_texts(keys@).skip(i as int) =~= Seq::<Seq<char>>::empty());
            }
        }
    }

    /// Adds `key` at the end of `out` unless `out` already holds it.
    fn insert_new(out: &mut Vec<String>, key: &String)
        ensures
            key_texts(final(out)@) == if key_texts(old(out)@).contains(key@) {
                key_texts(old(out)@)
            } else {
                key_texts(old(out)@).push(key@)
            },
    {
        let mut j: usize = 0;
        while j < out.len()
            invariant
                j <= out@.len(),
                forall|a: int| 0 <= a < j ==> (#[trigger] out@[a])@ != key@,
            decreases out@.len() - j,
        {
            if out[j] == *key {
                assert(key_texts(out@)[j as int] == key@);
                return;
            }
            j = j + 1;
        }
        let ghost before = out@;
        assert(!key_texts(before).contains(key@)) by {
            if key_texts(before).contains(key@) {
                let a = choose|a: int| 0 <= a < key_texts(before).len() && key_texts(before)[a] == key@;
                assert(before[a]@ == key@);
            }
        }
        out.push(key.clone());
        assert(key_texts(out@) =~= key_texts(before).push(key@));
    }

    /// Warm the cache at time `now` with the items the loader returned for the
    /// selected keys: all of them, in order. Returns how many were warmed.
    pub fn warm<V: Clone>(&self, cache: &mut MemoryCache<V>, items: Vec<(String, V)>, now: u64) -> (r: usize)
        requires
            old(cache).wf(),
        ensures
            final(cache).wf(),
            final(cache).capacity() == old(cache).capacity(),
            final(cache).time_to_live() == old(cache).time_to_live(),
            r == items@.len(),
            put_all(old(cache).contents(), old(cache).capacity(), old(cache).time_to_live(),
                items@, now, final(cache).contents()),
    {
        let ghost all = items@;
        let n = items.len();
        let r = put_items(cache, items, n, now);
        assert(all.take(r as int) =~= all);
        r
    }
}

impl PredictiveWarmer {
    /// Warm the cache with the items of the keys `select_keys` takes from
    /// the loader's frequent and recent keys, loaded in batches of the
    /// configured size. A failure of the loader ends the warming and is
    /// handed back.
    pub fn warm_from<V: Clone, L: DataLoader<V>>(&self, cache: &mut MemoryCache<V>, loader: &L, now: u64)
        -> (r: Result<usize, LoadError>)
        requires
            old(cache).wf(),
            self.config.batch_size > 0,
        ensures
            final(cache).wf(),
            final(cache).capacity() == old(cache).capacity(),
            final(cache).time_to_live() == old(cache).time_to_live(),
            r matches Ok(n) ==> warmed_by(old(cache).contents(), final(cache).contents(), old(cache).capacity(),
                old(cache).time_to_live(), now, Some(n)),
            r is Err ==> warmed_by(old(cache).contents(), final(cache).contents(), old(cache).capacity(),
                old(cache).time_to_live(), now, None),
    {
        let ghost cap = cache.capacity();
        let ghost ttl = cache.time_to_live();
        let ghost mut done: Seq<(String, V)> = Seq::empty();
        proof {
            lemma_put_all_empty(cache.contents(), cap, ttl, now);
            assert(done.len() == 0);
        }
        let frequent = match loader.get_frequent_keys(self.config.max_items) {
            Ok(k) => k,
            Err(e) => return Err(e),
        };
        let recent = match loader.get_recent_keys(self.config.max_items) {
            Ok(k) => k,
            Err(e) => return Err(e),
        };
        let keys = self.select_keys(&frequent, &recent);
        let size = self.config.batch_size;
        let mut warmed: usize = 0;
        let mut start: usize = 0;
        while start < keys.len()
            invariant
                cache.wf(),
                cache.capacity() == old(cache).capacity(),
                cache.time_to_live() == old(cache).time_to_live(),
                size > 0,
                start <= keys@.len(),
                cap == old(cache).capacity(),
                ttl == old(cache).time_to_live(),
                put_all(old(cache).contents(), cap, ttl, done, now, cache.contents()),
                warmed == min_size(done.len() as int, usize::MAX as int),
            decreases keys@.len() - start,
        {
            let end = batch_end(start, size, keys.len());
            let batch = batch_of(&keys, start, end);
            let items = match loader.load_many(batch.as_slice()) {
                Ok(items) => items,
                Err(e) => {
                    assert(done.len() == done.len());
                    return Err(e);
                },
            };
            let ghost mid = cache.contents();
            let ghost loaded = items@;
            let n = items.len();
            let put = put_items(cache, items, n, now);
            proof {
                assert(loaded.take(put as int) =~= loaded);
                lemma_put_all_concat(old(cache).contents(), mid, cache.contents(), cap, ttl, done, loaded, now);
                done = done + loaded;
            }
            warmed = if put > usize::MAX - warmed { usize::MAX } else { warmed + put };
            start = end;
        }
        assert(done.len() == done.len());
        Ok(warmed)
    }
}

impl CacheWarmer for PredictiveWarmer {
    fn name(&self) -> (r: &'static str)
        ensures
            r@ == "predictive"@,
    {
        "predictive"
    }

    fn config(&self) -> (r: WarmingConfig)
        ensures
            same_config(r, self.config),
    {
        self.config.duplicate()
    }
}

/// The text that `{:?}` gives of a string: std's `Debug` for `str`, the
/// string quoted, with its special characters escaped.
pub uninterp spec fn debug_text(s: Seq<char>) -> Seq<char>;

/// Formats a key with `format!("{:?}", key)` (std's `Debug` for `str`).
/// The claim is only that the result is a function of the key's text,
/// named `debug_text`; its exact escaping is not stated.
#[verifier::external_body]
fn debug_text_of(key: &str) -> (r: String)
    ensures
        r@ == debug_text(key@),
{
    format!("{:?}", key)
}

/// `text` matches one of `patterns`.
pub open spec fn matches_any(patterns: Seq<String>, text: Seq<u8>) -> bool {
    exists|i: int| 0 <= i < patterns.len() && glob_match(text, encode_utf8((#[trigger] patterns[i])@))
}

/// Pattern-based cache warming strategy.
#[derive(Debug)]
pub struct PatternWarmer {
    /// Warming configuration
    pub config: WarmingConfig,
    /// Patterns to include
    pub include_patterns: Vec<String>,
    /// Patterns to exclude
    pub exclude_patterns: Vec<String>,
}

impl PatternWarmer {
    /// Create a new pattern-based warming strategy.
    pub fn new(config: WarmingConfig, include_patterns: Vec<String>, exclude_patterns: Vec<String>) -> (r: Self)
        ensures
            r.config == config,
            r.include_patterns == include_patterns,
            r.exclude_patterns == exclude_patterns,
    {
        PatternWarmer { config, include_patterns, exclude_patterns }
    }

    /// Create a new pattern-based warming strategy with the default
    /// configuration: every key is taken, none left out.
    pub fn default() -> (r: Self)
        ensures
            default_config(r.config),
            r.include_patterns@.len() == 1,
            r.include_patterns@[0]@ == "*"@,
            r.exclude_patterns@.len() == 0,
    {
        let mut everything: Vec<String> = Vec::new();
        everything.push("*".to_owned());
        Self::new(WarmingConfig::default(), everything, Vec::new())
    }

    /// Whether `patterns` has one that the text matches.
    fn any_matches(patterns: &Vec<String>, text: &str) -> (r: bool)
        ensures
            r == matches_any(patterns@, text.spec_bytes()),
    {
        let mut i: usize = 0;
        while i < patterns.len()
            invariant
                i <= patterns@.len(),
                forall|j: int| 0 <= j < i ==> !glob_match(text.spec_bytes(), encode_utf8((#[trigger] patterns@[j])@)),
            decreases patterns@.len() - i,
        {
            if pattern_match(text, patterns[i].as_str()) {
                return true;
            }
            i = i + 1;
        }
        false
    }

    /// Check if a key matches the patterns, the key taken by its `Debug`
    /// text: no exclude pattern matches it and an include pattern does.
    pub fn matches_patterns(&self, key: &str) -> (r: bool)
        ensures
            r == (!matches_any(self.exclude_patterns@, encode_utf8(debug_text(key@)))
                && matches_any(self.include_patterns@, encode_utf8(debug_text(key@)))),
    {
        let key_text = debug_text_of(key);
        if Self::any_matches(&self.exclude_patterns, key_text.as_str()) {
            return false;
        }
        Self::any_matches(&self.include_patterns, key_text.as_str())
    }

    /// The keys an include pattern found that are to be warmed: those whose
    /// `Debug` text no exclude pattern matches, in order, at most `room` of
    /// them.
    pub fn select_keys(&self, keys: Vec<String>, room: usize) -> (r: Vec<String>)
        ensures
            r@.len() <= room,
            r@ == keys@.filter(|k: String| !matches_any(self.exclude_patterns@, encode_utf8(debug_text(k@)))).take(r@.len() as int),
            r@.len() == min_size(
                keys@.filter(|k: String| !matches_any(self.exclude_patterns@, encode_utf8(debug_text(k@)))).len() as int,
                room as int,
            ),
    {
        let ghost pred = |k: String| !matches_any(self.exclude_patterns@, encode_utf8(debug_text(k@)));
        let ghost all = keys@;
        let mut out: Vec<String> = Vec::new();
        let mut i: usize = 0;
        while i < keys.len() && out.len() < room
            invariant
                i <= all.len(),
                keys@ == all,
                pred == (|k: String| !matches_any(self.exclude_patterns@, encode_utf8(debug_text(k@)))),
                out@ == all.take(i as int).filter(pred),
                out@.len() <= room,
            decreases all.len() - i,
        {
            let key = keys[i].clone();
            assert(all.take(i + 1).drop_last() =~= all.take(i as int));
            assert(all.take(i + 1).last() == key);
            proof { reveal(Seq::filter); }
            let key_text = debug_text_of(key.as_str());
            let excluded = Self::any_matches(&self.exclude_patterns, key_text.as_str());
            if !excluded {
                out.push(key);
            }
            i = i + 1;
        }
        proof {
            let f = all.filter(pred);
            lemma_filter_prefix(all, pred, i as int);
            if i == all.len() {
                assert(all.take(i as int) =~= all);
            }
        }
        out
    }
}

/// Filtering a prefix gives a prefix of the filtered sequence.
proof fn lemma_filter_prefix<A>(s: Seq<A>, pred: spec_fn(A) -> bool, i: int)
    requires
        0 <= i <= s.len(),
    ensures
        s.take(i).filter(pred).len() <= s.filter(pred).len(),
        s.take(i).filter(pred) == s.filter(pred).take(s.take(i).filter(pred).len() as int),
    decreases s.len() - i,
{
    reveal(Seq::filter);
    if i < s.len() {
        lemma_filter_prefix(s, pred, i + 1);
        let t = s.take(i + 1);
        assert(t.drop_last() =~= s.take(i));
        let a = s.take(i).filter(pred);
        let b = t.filter(pred);
        assert(b.take(a.len() as int) =~= a);
        assert(s.filter(pred).take(a.len() as int) =~= b.take(a.len() as int));
    } else {
        assert(s.take(i) =~= s);
        assert(s.filter(pred).take(s.filter(pred).len() as int) =~= s.filter(pred));
    }
}

impl PatternWarmer {
    /// Warm the cache, pattern by pattern: the keys the loader finds for an
    /// include pattern, less those `select_keys` leaves out, are loaded in
    /// batches of the configured size and put, until the configured number
    /// of items is reached. A failure of the loader ends the warming and is
    /// handed back.
    pub fn warm_from<V: Clone, L: DataLoader<V>>(&self, cache: &mut MemoryCache<V>, loader: &L, now: u64)
        -> (r: Result<usize, LoadError>)
        requires
            old(cache).wf(),
            self.config.batch_size > 0,
        ensures
            final(cache).wf(),
            final(cache).capacity() == old(cache).capacity(),
            final(cache).time_to_live() == old(cache).time_to_live(),
            r matches Ok(n) ==> n <= self.config.max_items,
            r matches Ok(n) ==> warmed_by(old(cache).contents(), final(cache).contents(), old(cache).capacity(),
                old(cache).time_to_live(), now, Some(n)),
            r is Err ==> warmed_by(old(cache).contents(), final(cache).contents(), old(cache).capacity(),
                old(cache).time_to_live(), now, None),
    {
        let ghost cap = cache.capacity();
        let ghost ttl = cache.time_to_live();
        let ghost mut done: Seq<(String, V)> = Seq::empty();
        proof {
            lemma_put_all_empty(cache.contents(), cap, ttl, now);
        }
        let max = self.config.max_items;
        let size = self.config.batch_size;
        let mut warmed: usize = 0;
        let mut p: usize = 0;
        while p < self.include_patterns.len()
            invariant
                cache.wf(),
                cache.capacity() == old(cache).capacity(),
                cache.time_to_live() == old(cache).time_to_live(),
                max == self.config.max_items,
                size == self.config.batch_size,
                size > 0,
                warmed <= max,
                p <= self.include_patterns@.len(),
                cap == old(cache).capacity(),
                ttl == old(cache).time_to_live(),
                put_all(old(cache).contents(), cap, ttl, done, now, cache.contents()),
                warmed == done.len(),
            decreases self.include_patterns@.len() - p,
        {
            let keys = match loader.get_pattern_keys(self.include_patterns[p].as_str()) {
                Ok(k) => k,
                Err(e) => {
                    assert(done.len() == done.len());
                    return Err(e);
                },
            };
            let filtered = self.select_keys(keys, max - warmed);
            let mut start: usize = 0;
            while start < filtered.len()
                invariant
                    cache.wf(),
                    cache.capacity() == old(cache).capacity(),
                    cache.time_to_live() == old(cache).time_to_live(),
                    max == self.config.max_items,
                    size > 0,
                    filtered@.len() > 0 ==> warmed < max,
                    warmed <= max,
                    start <= filtered@.len(),
                    cap == old(cache).capacity(),
                    ttl == old(cache).time_to_live(),
                    put_all(old(cache).contents(), cap, ttl, done, now, cache.contents()),
                    warmed == done.len(),
                decreases filtered@.len() - start,
            {
                let end = batch_end(start, size, filtered.len());
                let batch = batch_of(&filtered, start, end);
                let items = match loader.load_many(batch.as_slice()) {
                    Ok(items) => items,
                    Err(e) => {
                        assert(done.len() == done.len());
                        return Err(e);
                    },
                };
                let mut rest = items;
                while rest.len() > 0
                    invariant
                        cache.wf(),
                        cache.capacity() == old(cache).capacity(),
                        cache.time_to_live() == old(cache).time_to_live(),
                        max == self.config.max_items,
                        warmed < max,
                        cap == old(cache).capacity(),
                        ttl == old(cache).time_to_live(),
                        put_all(old(cache).contents(), cap, ttl, done, now, cache.contents()),
                        warmed == done.len(),
                    decreases rest@.len(),
                {
                    let (key, value) = rest.remove(0);
                    let ghost item = (key, value);
                    let ghost mid = cache.contents();
                    cache.put(key, value, now);
                    proof {
                        lemma_put_all_one(mid, cache.contents(), cap, ttl, item, now);
                        lemma_put_all_concat(old(cache).contents(), mid, cache.contents(), cap, ttl, done, seq![item], now);
                        done = done + seq![item];
                    }
                    warmed = warmed + 1;
                    if warmed >= max {
                        assert(done.len() == done.len());
                        return Ok(warmed);
                    }
                }
                start = end;
            }
            p = p + 1;
        }
        assert(done.len() == done.len());
        Ok(warmed)
    }
}

impl CacheWarmer for PatternWarmer {
    fn name(&self) -> (r: &'static str)
        ensures
            r@ == "pattern"@,
    {
        "pattern"
    }

    fn config(&self) -> (r: WarmingConfig)
        ensures
            same_config(r, self.config),
    {
        self.config.duplicate()
    }
}

/// Cache warming factory for creating the different kinds of cache warmers.
#[derive(Debug)]
pub struct CacheWarmingFactory;

impl CacheWarmingFactory {
    /// Create an eager warming strategy, with the default configuration when
    /// none is given.
    pub fn eager_warmer(config: Option<WarmingConfig>) -> (r: EagerWarmer)
        ensures
            match config {
                Some(c) => r.config == c,
                None => default_config(r.config),
            },
    {
        match config {
            Some(c) => EagerWarmer::new(c),
            None => EagerWarmer::default(),
        }
    }

    /// Create a predictive warming strategy; what is not given is the
    /// default: the default configuration, ten accesses, the last 24 hours.
    pub fn predictive_warmer(
        config: Option<WarmingConfig>,
        frequency_threshold: Option<u64>,
        recency_threshold: Option<TimeSpan>,
    ) -> (r: PredictiveWarmer)
        ensures
            match config {
                Some(c) => r.config == c,
                None => default_config(r.config),
            },
            r.frequency_threshold == match frequency_threshold {
                Some(f) => f,
                None => 10u64,
            },
    {
        let c = match config {
            Some(c) => c,
            None => WarmingConfig::default(),
        };
        let f = match frequency_threshold {
            Some(f) => f,
            None => 10,
        };
        let t = match recency_threshold {
            Some(t) => t,
            None => TimeSpan::from_secs(60 * 60 * 24),
        };
        PredictiveWarmer::new(c, f, t)
    }

    /// Create a pattern-based warming strategy; what is not given is the
    /// default: the default configuration, every key taken, none left out.
    pub fn pattern_warmer(
        config: Option<WarmingConfig>,
        include_patterns: Option<Vec<String>>,
        exclude_patterns: Option<Vec<String>>,
    ) -> (r: PatternWarmer)
        ensures
            match config {
                Some(c) => r.config == c,
                None => default_config(r.config),
            },
            match include_patterns {
                Some(p) => r.include_patterns == p,
                None => r.include_patterns@.len() == 1 && r.include_patterns@[0]@ == "*"@,
            },
            match exclude_patterns {
                Some(p) => r.exclude_patterns == p,
                None => r.exclude_patterns@.len() == 0,
            },
    {
        let c = match config {
            Some(c) => c,
            None => WarmingConfig::default(),
        };
        let taken = match include_patterns {
            Some(p) => p,
            None => {
                let mut everything: Vec<String> = Vec::new();
                everything.push("*".to_owned());
                everything
            },
        };
        let left_out = match exclude_patterns {
            Some(p) => p,
            None => Vec::new(),
        };
        PatternWarmer::new(c, taken, left_out)
    }
}

} // verus!
