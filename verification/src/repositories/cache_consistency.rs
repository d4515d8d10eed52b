use vstd::prelude::*;
use crate::repositories::memory_cache::{
    get_result, law_expired_after_ttl, law_get_after_put, law_get_after_remove, put_result, CacheEntry, MemoryCache,
};
use crate::time_span::TimeSpan;
use crate::keyed::{KeyedMap, LookupKey};

verus! {

/// Cache consistency configuration.
#[derive(Debug, Clone, Copy, PartialEq, Eq, Structural)]
pub struct ConsistencyConfig {
    /// Whether to propagate changes to other caches
    pub propagate_changes: bool,
    /// Maximum time to wait for propagation
    pub propagation_timeout: Option<TimeSpan>,
    /// Whether to use synchronous or asynchronous propagation
    pub synchronous_propagation: bool,
    /// Maximum number of pending operations
    pub max_pending_operations: usize,
    /// Whether to retry failed operations
    pub retry_failed_operations: bool,
    /// Maximum number of retry attempts
    pub max_retry_attempts: usize,
    /// Retry delay
    pub retry_delay: TimeSpan,
    /// Whether to log consistency operations
    pub log_operations: bool,
}

/// The default consistency configuration.
pub open spec fn default_consistency(c: ConsistencyConfig) -> bool {
    &&& c.propagate_changes
    &&& c.propagation_timeout == Some(TimeSpan { millis: 5000 })
    &&& !c.synchronous_propagation
    &&& c.max_pending_operations == 1000
    &&& c.retry_failed_operations
    &&& c.max_retry_attempts == 3
    &&& c.retry_delay == TimeSpan { millis: 100 }
    &&& c.log_operations
}

impl Default for ConsistencyConfig {
    fn default() -> (r: Self)
        ensures
            default_consistency(r),
    {
        ConsistencyConfig {
            propagate_changes: true,
            propagation_timeout: Some(TimeSpan::from_secs(5)),
            synchronous_propagation: false,
            max_pending_operations: 1000,
            retry_failed_operations: true,
            max_retry_attempts: 3,
            retry_delay: TimeSpan::from_millis(100),
            log_operations: true,
        }
    }
}

/// Cache operation, as tracked for consistency.
#[derive(Debug, Clone, PartialEq, Eq)]
pub enum CacheOperation<V> {
    /// Write operation
    Write(String, V),
    /// Invalidation operation
    Invalidate(String),
    /// Clear operation
    Clear,
}

/// Why a consistency operation failed.
#[derive(Debug, Clone, PartialEq, Eq)]
pub enum ConsistencyError {
    /// The data source refused the operation
    DataSource(String),
    /// Too many operations are pending
    ResourceLimitExceeded(String),
}

/// A store behind the cache, implemented by the caller.
pub trait DataSource<V> {
    /// Read a value from the data source.
    fn read(&self, key: &String) -> Result<Option<V>, ConsistencyError>;

    /// Write a value to the data source.
    fn write(&mut self, key: &String, value: &V) -> Result<(), ConsistencyError>;

    /// Delete a value from the data source.
    fn delete(&mut self, key: &String) -> Result<(), ConsistencyError>;

    /// Clear all values from the data source.
    fn clear(&mut self) -> Result<(), ConsistencyError>;
}

/// The contents of a cache.
pub type Contents<V> = Map<(int, Seq<char>), CacheEntry<V>>;

/// How a strategy keeps a cache consistent with its source. Each operation
/// returns, on success, the operation to propagate to other caches, if any.
pub trait CacheConsistencyStrategy<V: Clone> {
    /// The strategy's parts are well formed.
    spec fn inv(&self) -> bool;

    /// What a write of `value` under `key` at `now` does to a cache holding
    /// `before`, given whether it succeeded.
    spec fn write_effect(&self, before: Contents<V>, cap: usize, ttl: Option<TimeSpan>, key: Seq<char>, value: V,
        now: u64, after: Contents<V>, ok: bool) -> bool;

    /// What an invalidation of `key` does to a cache holding `before`.
    spec fn invalidate_effect(&self, before: Contents<V>, key: Seq<char>, after: Contents<V>, ok: bool) -> bool;

    /// What a clear does to a cache holding `before`.
    spec fn clear_effect(&self, before: Contents<V>, after: Contents<V>, ok: bool) -> bool;

    /// Process a cache write operation.
    fn process_write(&mut self, key: String, value: V, cache: &mut MemoryCache<V>, now: u64)
        -> (r: Result<Option<CacheOperation<V>>, ConsistencyError>)
        requires
            old(self).inv(),
            old(cache).wf(),
        ensures
            final(self).inv(),
            final(cache).wf(),
            final(cache).capacity() == old(cache).capacity(),
            final(cache).time_to_live() == old(cache).time_to_live(),
            old(self).write_effect(old(cache).contents(), old(cache).capacity(), old(cache).time_to_live(), key@, value,
                now, final(cache).contents(), r is Ok);

    /// Process a cache invalidation.
    fn process_invalidation(&mut self, key: &String, cache: &mut MemoryCache<V>)
        -> (r: Result<Option<CacheOperation<V>>, ConsistencyError>)
        requires
            old(self).inv(),
            old(cache).wf(),
        ensures
            final(self).inv(),
            final(cache).wf(),
            final(cache).capacity() == old(cache).capacity(),
            final(cache).time_to_live() == old(cache).time_to_live(),
            old(self).invalidate_effect(old(cache).contents(), key@, final(cache).contents(), r is Ok);

    /// Process a cache clear operation.
    fn process_clear(&mut self, cache: &mut MemoryCache<V>) -> (r: Result<Option<CacheOperation<V>>, ConsistencyError>)
        requires
            old(self).inv(),
            old(cache).wf(),
        ensures
            final(self).inv(),
            final(cache).wf(),
            final(cache).capacity() == old(cache).capacity(),
            final(cache).time_to_live() == old(cache).time_to_live(),
            old(self).clear_effect(old(cache).contents(), final(cache).contents(), r is Ok);

    /// Get the name of the consistency strategy.
    fn name(&self) -> &'static str;

    /// Get the configuration of the consistency strategy.
    fn config(&self) -> ConsistencyConfig;
}

/// The operation to propagate, when changes are propagated and there is a
/// propagator to carry them.
pub open spec fn propagated<V>(config: ConsistencyConfig, has_propagator: bool, op: CacheOperation<V>,
    r: Option<CacheOperation<V>>) -> bool {
    if config.propagate_changes && has_propagator { r == Some(op) } else { r is None }
}

fn propagation<V>(config: &ConsistencyConfig, has_propagator: bool, op: CacheOperation<V>) -> (r: Option<CacheOperation<V>>)
    ensures
        propagated(*config, has_propagator, op, r),
{
    if config.propagate_changes && has_propagator { Some(op) } else { None }
}

/// Time-based expiration strategy: the cache's time-to-live keeps it
/// eventually consistent; operations apply to the cache alone.
#[derive(Debug)]
pub struct ExpirationStrategy {
    /// Consistency configuration
    pub config: ConsistencyConfig,
    /// Time-to-live for cache entries
    pub ttl: TimeSpan,
}

impl ExpirationStrategy {
    /// Create a new expiration strategy.
    pub fn new(config: ConsistencyConfig, ttl: TimeSpan) -> (r: Self)
        ensures
            r.config == config,
            r.ttl == ttl,
    {
        ExpirationStrategy { config, ttl }
    }

    /// Get the time-to-live.
    pub fn ttl(&self) -> (r: TimeSpan)
        ensures
            r == self.ttl,
    {
        self.ttl
    }
}

impl<V: Clone> CacheConsistencyStrategy<V> for ExpirationStrategy {
    open spec fn inv(&self) -> bool {
        true
    }

    open spec fn write_effect(&self, before: Contents<V>, cap: usize, ttl: Option<TimeSpan>, key: Seq<char>, value: V,
        now: u64, after: Contents<V>, ok: bool) -> bool {
        ok && put_result(before, cap, ttl, key, value, now, after)
    }

    open spec fn invalidate_effect(&self, before: Contents<V>, key: Seq<char>, after: Contents<V>, ok: bool) -> bool {
        ok && after == before.remove((0int, key))
    }

    open spec fn clear_effect(&self, before: Contents<V>, after: Contents<V>, ok: bool) -> bool {
        ok && after == Map::<(int, Seq<char>), CacheEntry<V>>::empty()
    }

    fn process_write(&mut self, key: String, value: V, cache: &mut MemoryCache<V>, now: u64)
        -> (r: Result<Option<CacheOperation<V>>, ConsistencyError>)
        ensures
            r == Ok::<Option<CacheOperation<V>>, ConsistencyError>(None),
    {
        cache.put(key, value, now);
        Ok(None)
    }

    fn process_invalidation(&mut self, key: &String, cache: &mut MemoryCache<V>)
        -> (r: Result<Option<CacheOperation<V>>, ConsistencyError>)
        ensures
            r == Ok::<Option<CacheOperation<V>>, ConsistencyError>(None),
    {
        cache.remove(key);
        Ok(None)
    }

    fn process_clear(&mut self, cache: &mut MemoryCache<V>) -> (r: Result<Option<CacheOperation<V>>, ConsistencyError>)
        ensures
            r == Ok::<Option<CacheOperation<V>>, ConsistencyError>(None),
    {
        cache.clear();
        Ok(None)
    }

    /// The name is "expiration".
    fn name(&self) -> &'static str {
        "expiration"
    }

    /// A copy of the configuration.
    fn config(&self) -> ConsistencyConfig {
        self.config
    }
}

/// Invalidation-based strategy: a write does not store the value; it drops
/// the key from the cache and propagates the invalidation, so that the next
/// read goes to the source.
#[derive(Debug)]
pub struct InvalidationStrategy {
    /// Consistency configuration
    pub config: ConsistencyConfig,
    /// Whether a change propagator carries the changes to other caches
    pub has_propagator: bool,
}

impl InvalidationStrategy {
    /// Create a new invalidation strategy.
    pub fn new(config: ConsistencyConfig, has_propagator: bool) -> (r: Self)
        ensures
            r.config == config,
            r.has_propagator == has_propagator,
    {
        InvalidationStrategy { config, has_propagator }
    }
}

impl<V: Clone> CacheConsistencyStrategy<V> for InvalidationStrategy {
    open spec fn inv(&self) -> bool {
        true
    }

    open spec fn write_effect(&self, before: Contents<V>, cap: usize, ttl: Option<TimeSpan>, key: Seq<char>, value: V,
        now: u64, after: Contents<V>, ok: bool) -> bool {
        ok && after == before.remove((0int, key))
    }

    open spec fn invalidate_effect(&self, before: Contents<V>, key: Seq<char>, after: Contents<V>, ok: bool) -> bool {
        ok && after == before.remove((0int, key))
    }

    open spec fn clear_effect(&self, before: Contents<V>, after: Contents<V>, ok: bool) -> bool {
        ok && after == Map::<(int, Seq<char>), CacheEntry<V>>::empty()
    }

    fn process_write(&mut self, key: String, value: V, cache: &mut MemoryCache<V>, now: u64)
        -> (r: Result<Option<CacheOperation<V>>, ConsistencyError>)
        ensures
            r matches Ok(p) && propagated(old(self).config, old(self).has_propagator, CacheOperation::Invalidate(key), p),
    {
        cache.remove(&key);
        Ok(propagation(&self.config, self.has_propagator, CacheOperation::Invalidate(key)))
    }

    fn process_invalidation(&mut self, key: &String, cache: &mut MemoryCache<V>)
        -> (r: Result<Option<CacheOperation<V>>, ConsistencyError>)
        ensures
            r matches Ok(p) && propagated(old(self).config, old(self).has_propagator, CacheOperation::Invalidate(*key), p),
    {
        cache.remove(key);
        Ok(propagation(&self.config, self.has_propagator, CacheOperation::Invalidate(key.clone())))
    }

    fn process_clear(&mut self, cache: &mut MemoryCache<V>) -> (r: Result<Option<CacheOperation<V>>, ConsistencyError>)
        ensures
            r matches Ok(p) && propagated(old(self).config, old(self).has_propagator, CacheOperation::Clear, p),
    {
        cache.clear();
        Ok(propagation(&self.config, self.has_propagator, CacheOperation::Clear))
    }

    /// The name is "invalidation".
    fn name(&self) -> &'static str {
        "invalidation"
    }

    /// A copy of the configuration.
    fn config(&self) -> ConsistencyConfig {
        self.config
    }
}

/// Write-through strategy: a change goes to the data source first, then to
/// the cache, and is then propagated. When the source refuses it, the cache
/// is left as it was.
#[derive(Debug)]
pub struct WriteThroughStrategy<D> {
    /// Consistency configuration
    pub config: ConsistencyConfig,
    /// Data source for persistence
    pub data_source: D,
    /// Whether a change propagator carries the changes to other caches
    pub has_propagator: bool,
}

impl<D> WriteThroughStrategy<D> {
    /// Create a new write-through strategy.
    pub fn new(data_source: D, config: ConsistencyConfig, has_propagator: bool) -> (r: Self)
        ensures
            r.config == config,
            r.data_source == data_source,
            r.has_propagator == has_propagator,
    {
        WriteThroughStrategy { config, data_source, has_propagator }
    }
}

impl<V: Clone, D: DataSource<V>> CacheConsistencyStrategy<V> for WriteThroughStrategy<D> {
    open spec fn inv(&self) -> bool {
        true
    }

    open spec fn write_effect(&self, before: Contents<V>, cap: usize, ttl: Option<TimeSpan>, key: Seq<char>, value: V,
        now: u64, after: Contents<V>, ok: bool) -> bool {
        if ok { put_result(before, cap, ttl, key, value, now, after) } else { after == before }
    }

    open spec fn invalidate_effect(&self, before: Contents<V>, key: Seq<char>, after: Contents<V>, ok: bool) -> bool {
        if ok { after == before.remove((0int, key)) } else { after == before }
    }

    open spec fn clear_effect(&self, before: Contents<V>, after: Contents<V>, ok: bool) -> bool {
        if ok { after == Map::<(int, Seq<char>), CacheEntry<V>>::empty() } else { after == before }
    }

    fn process_write(&mut self, key: String, value: V, cache: &mut MemoryCache<V>, now: u64)
        -> (r: Result<Option<CacheOperation<V>>, ConsistencyError>)
        ensures
            final(self).config == old(self).config,
            final(self).has_propagator == old(self).has_propagator,
            r matches Ok(p) ==> match p {
                Some(op) => old(self).config.propagate_changes && old(self).has_propagator
                    && (op matches CacheOperation::Write(k, v) && k == key && cloned(value, v)),
                None => !(old(self).config.propagate_changes && old(self).has_propagator),
            },
    {
        match self.data_source.write(&key, &value) {
            Err(e) => return Err(e),
            Ok(()) => {},
        }
        let k = key.clone();
        let v = value.clone();
        cache.put(key, value, now);
        if self.config.propagate_changes && self.has_propagator {
            Ok(Some(CacheOperation::Write(k, v)))
        } else {
            Ok(None)
        }
    }

    fn process_invalidation(&mut self, key: &String, cache: &mut MemoryCache<V>)
        -> (r: Result<Option<CacheOperation<V>>, ConsistencyError>)
        ensures
            final(self).config == old(self).config,
            final(self).has_propagator == old(self).has_propagator,
            r matches Ok(p) ==> propagated(old(self).config, old(self).has_propagator, CacheOperation::Invalidate(*key), p),
    {
        match self.data_source.delete(key) {
            Err(e) => return Err(e),
            Ok(()) => {},
        }
        cache.remove(key);
        Ok(propagation(&self.config, self.has_propagator, CacheOperation::Invalidate(key.clone())))
    }

    fn process_clear(&mut self, cache: &mut MemoryCache<V>) -> (r: Result<Option<CacheOperation<V>>, ConsistencyError>)
        ensures
            final(self).config == old(self).config,
            final(self).has_propagator == old(self).has_propagator,
            r matches Ok(p) ==> propagated(old(self).config, old(self).has_propagator, CacheOperation::Clear, p),
    {
        match self.data_source.clear() {
            Err(e) => return Err(e),
            Ok(()) => {},
        }
        cache.clear();
        Ok(propagation(&self.config, self.has_propagator, CacheOperation::Clear))
    }

    /// The name is "write-through".
    fn name(&self) -> &'static str {
        "write-through"
    }

    /// A copy of the configuration.
    fn config(&self) -> ConsistencyConfig {
        self.config
    }
}

/// The message of a full write-behind queue.
pub open spec fn queue_full_message() -> Seq<char> {
    "Maximum number of pending cache operations reached"@
}

/// Write-behind strategy: a change goes to the cache at once and is queued
/// for the data source, which the queue is flushed to later. A full queue
/// refuses the change, after the cache took it.
#[derive(Debug)]
pub struct WriteBehindStrategy<V> {
    /// Consistency configuration
    config: ConsistencyConfig,
    /// Whether a change propagator carries the changes to other caches
    has_propagator: bool,
    /// Queue of pending operations
    pending: Vec<CacheOperation<V>>,
}

impl<V: Clone> WriteBehindStrategy<V> {
    /// The pending operations, oldest first.
    pub closed spec fn queue(&self) -> Seq<CacheOperation<V>> {
        self.pending@
    }

    /// The consistency configuration.
    pub closed spec fn settings(&self) -> ConsistencyConfig {
        self.config
    }

    /// Whether a change propagator carries the changes to other caches.
    pub closed spec fn propagates(&self) -> bool {
        self.has_propagator
    }

    /// Create a new write-behind strategy with an empty queue.
    pub fn new(config: ConsistencyConfig, has_propagator: bool) -> (r: Self)
        ensures
            r.settings() == config,
            r.propagates() == has_propagator,
            r.queue() == Seq::<CacheOperation<V>>::empty(),
    {
        WriteBehindStrategy { config, has_propagator, pending: Vec::new() }
    }

    /// Queues an operation unless the queue is full.
    fn enqueue(&mut self, op: CacheOperation<V>) -> (r: Result<Option<CacheOperation<V>>, ConsistencyError>)
        ensures
            final(self).settings() == old(self).settings(),
            final(self).propagates() == old(self).propagates(),
            old(self).queue().len() >= old(self).settings().max_pending_operations ==> {
                &&& r matches Err(ConsistencyError::ResourceLimitExceeded(m)) && m@ == queue_full_message()
                &&& final(self).queue() == old(self).queue()
            },
            old(self).queue().len() < old(self).settings().max_pending_operations ==> {
                &&& r == Ok::<Option<CacheOperation<V>>, ConsistencyError>(None)
                &&& final(self).queue() == old(self).queue().push(op)
            },
    {
        if self.pending.len() >= self.config.max_pending_operations {
            return Err(ConsistencyError::ResourceLimitExceeded(
                "Maximum number of pending cache operations reached".to_owned(),
            ));
        }
        self.pending.push(op);
        Ok(None)
    }

    /// Takes all pending operations out of the queue, oldest first.
    pub fn drain_pending(&mut self) -> (r: Vec<CacheOperation<V>>)
        ensures
            r@ == old(self).queue(),
            final(self).queue() == Seq::<CacheOperation<V>>::empty(),
            final(self).settings() == old(self).settings(),
            final(self).propagates() == old(self).propagates(),
    {
        let mut taken: Vec<CacheOperation<V>> = Vec::new();
        std::mem::swap(&mut taken, &mut self.pending);
        taken
    }

    /// Puts an operation that failed back at the end of the queue, when
    /// failed operations are retried.
    pub fn requeue_failed(&mut self, op: CacheOperation<V>)
        ensures
            final(self).queue() == if old(self).settings().retry_failed_operations {
                old(self).queue().push(op)
            } else {
                old(self).queue()
            },
            final(self).settings() == old(self).settings(),
            final(self).propagates() == old(self).propagates(),
    {
        if self.config.retry_failed_operations {
            self.pending.push(op);
        }
    }

    /// Send one operation to the data source.
    fn send<D: DataSource<V>>(source: &mut D, op: &CacheOperation<V>) -> (r: Result<(), ConsistencyError>) {
        match op {
            CacheOperation::Write(k, v) => source.write(k, v),
            CacheOperation::Invalidate(k) => source.delete(k),
            CacheOperation::Clear => source.clear(),
        }
    }

    /// Flush the pending operations to the data source, oldest first. The
    /// queue is emptied first; the first operation the source refuses ends
    /// the flush with its error. The outcome tells how many operations were
    /// written and which of them to propagate.
    pub fn flush<D: DataSource<V>>(&mut self, source: &mut D) -> (r: FlushOutcome<V>)
        ensures
            final(self).queue() == Seq::<CacheOperation<V>>::empty(),
            final(self).settings() == old(self).settings(),
            final(self).propagates() == old(self).propagates(),
            r.written <= old(self).queue().len(),
            r.error is None ==> r.written == old(self).queue().len(),
            r.propagate@ == if old(self).settings().propagate_changes && old(self).propagates() {
                old(self).queue().take(r.written as int)
            } else {
                Seq::<CacheOperation<V>>::empty()
            },
    {
        let ops = self.drain_pending();
        let ghost all = ops@;
        let n = ops.len();
        let propagate = self.config.propagate_changes && self.has_propagator;
        let mut out: Vec<CacheOperation<V>> = Vec::new();
        let mut rest = ops;
        let mut i: usize = 0;
        while rest.len() > 0
            invariant
                i <= all.len(),
                rest@ == all.skip(i as int),
                self.queue() == Seq::<CacheOperation<V>>::empty(),
                self.settings() == old(self).settings(),
                self.propagates() == old(self).propagates(),
                all == old(self).queue(),
                all.len() == n,
                propagate == (old(self).settings().propagate_changes && old(self).propagates()),
                propagate ==> out@ == all.take(i as int),
                !propagate ==> out@.len() == 0,
            decreases all.len() - i,
        {
            let op = rest.remove(0);
            assert(op == all[i as int]);
            match Self::send(source, &op) {
                Err(e) => {
                    proof {
                        if !propagate {
                            assert(out@ =~= Seq::<CacheOperation<V>>::empty());
                        }
                    }
                    return FlushOutcome { written: i, propagate: out, error: Some(e) };
                },
                Ok(()) => {},
            }
            if propagate {
                out.push(op);
                assert(all.take(i + 1) =~= all.take(i as int).push(all[i as int]));
            }
            i = i + 1;
        }
        assert(all.take(i as int) =~= all);
        proof {
            if !propagate {
                assert(out@ =~= Seq::<CacheOperation<V>>::empty());
            }
        }
        FlushOutcome { written: i, propagate: out, error: None }
    }

    /// One round of the background writer: the queue is emptied and each
    /// operation sent to the data source, oldest first. One the source
    /// refuses is queued again when failed operations are retried; those it
    /// takes are handed back to be propagated, when changes are propagated
    /// and there is a propagator.
    pub fn process_pending<D: DataSource<V>>(&mut self, source: &mut D) -> (r: Vec<CacheOperation<V>>)
        ensures
            final(self).settings() == old(self).settings(),
            final(self).propagates() == old(self).propagates(),
            final(self).queue().len() <= old(self).queue().len(),
            !old(self).settings().retry_failed_operations ==> final(self).queue().len() == 0,
            r@.len() + final(self).queue().len() <= old(self).queue().len(),
            !(old(self).settings().propagate_changes && old(self).propagates()) ==> r@.len() == 0,
            forall|i: int| 0 <= i < r@.len() ==> old(self).queue().contains(#[trigger] r@[i]),
            forall|i: int| 0 <= i < final(self).queue().len() ==> old(self).queue().contains(#[trigger] final(self).queue()[i]),
    {
        let ops = self.drain_pending();
        let ghost all = ops@;
        let n = ops.len();
        let propagate = self.config.propagate_changes && self.has_propagator;
        let mut out: Vec<CacheOperation<V>> = Vec::new();
        let mut rest = ops;
        let mut i: usize = 0;
        while rest.len() > 0
            invariant
                i <= all.len(),
                all.len() == n,
                rest@ == all.skip(i as int),
                all == old(self).queue(),
                self.settings() == old(self).settings(),
                self.propagates() == old(self).propagates(),
                propagate == (old(self).settings().propagate_changes && old(self).propagates()),
                !propagate ==> out@.len() == 0,
                !old(self).settings().retry_failed_operations ==> self.queue().len() == 0,
                out@.len() + self.queue().len() <= i,
                forall|j: int| 0 <= j < out@.len() ==> all.contains(#[trigger] out@[j]),
                forall|j: int| 0 <= j < self.queue().len() ==> all.contains(#[trigger] self.queue()[j]),
            decreases all.len() - i,
        {
            let op = rest.remove(0);
            assert(op == all[i as int]);
            match Self::send(source, &op) {
                Err(_) => {
                    self.requeue_failed(op);
                },
                Ok(()) => {
                    if propagate {
                        out.push(op);
                    }
                },
            }
            i = i + 1;
        }
        out
    }
}

/// What a flush of the write-behind queue did.
#[derive(Debug)]
pub struct FlushOutcome<V> {
    /// How many operations the data source took, oldest first
    pub written: usize,
    /// The operations to propagate
    pub propagate: Vec<CacheOperation<V>>,
    /// The error of the operation the data source refused, if one was
    pub error: Option<ConsistencyError>,
}

impl<V: Clone> CacheConsistencyStrategy<V> for WriteBehindStrategy<V> {
    open spec fn inv(&self) -> bool {
        true
    }

    open spec fn write_effect(&self, before: Contents<V>, cap: usize, ttl: Option<TimeSpan>, key: Seq<char>, value: V,
        now: u64, after: Contents<V>, ok: bool) -> bool {
        &&& put_result(before, cap, ttl, key, value, now, after)
        &&& ok == (self.queue().len() < self.settings().max_pending_operations)
    }

    open spec fn invalidate_effect(&self, before: Contents<V>, key: Seq<char>, after: Contents<V>, ok: bool) -> bool {
        &&& after == before.remove((0int, key))
        &&& ok == (self.queue().len() < self.settings().max_pending_operations)
    }

    open spec fn clear_effect(&self, before: Contents<V>, after: Contents<V>, ok: bool) -> bool {
        &&& after == Map::<(int, Seq<char>), CacheEntry<V>>::empty()
        &&& ok == (self.queue().len() < self.settings().max_pending_operations)
    }

    fn process_write(&mut self, key: String, value: V, cache: &mut MemoryCache<V>, now: u64)
        -> (r: Result<Option<CacheOperation<V>>, ConsistencyError>)
        ensures
            final(self).settings() == old(self).settings(),
            final(self).propagates() == old(self).propagates(),
            r matches Err(e) ==> e matches ConsistencyError::ResourceLimitExceeded(m) && m@ == queue_full_message(),
            r is Ok ==> r == Ok::<Option<CacheOperation<V>>, ConsistencyError>(None)
                && final(self).queue().len() == old(self).queue().len() + 1
                && final(self).queue().drop_last() == old(self).queue()
                && (final(self).queue().last() matches CacheOperation::Write(k, v) && k == key && cloned(value, v)),
            r is Err ==> final(self).queue() == old(self).queue(),
    {
        let k = key.clone();
        let v = value.clone();
        cache.put(key, value, now);
        self.enqueue(CacheOperation::Write(k, v))
    }

    fn process_invalidation(&mut self, key: &String, cache: &mut MemoryCache<V>)
        -> (r: Result<Option<CacheOperation<V>>, ConsistencyError>)
        ensures
            final(self).settings() == old(self).settings(),
            final(self).propagates() == old(self).propagates(),
            r matches Err(e) ==> e matches ConsistencyError::ResourceLimitExceeded(m) && m@ == queue_full_message(),
            r is Ok ==> r == Ok::<Option<CacheOperation<V>>, ConsistencyError>(None)
                && final(self).queue() == old(self).queue().push(CacheOperation::Invalidate(*key)),
            r is Err ==> final(self).queue() == old(self).queue(),
    {
        cache.remove(key);
        self.enqueue(CacheOperation::Invalidate(key.clone()))
    }

    fn process_clear(&mut self, cache: &mut MemoryCache<V>) -> (r: Result<Option<CacheOperation<V>>, ConsistencyError>)
        ensures
            final(self).settings() == old(self).settings(),
            final(self).propagates() == old(self).propagates(),
            r matches Err(e) ==> e matches ConsistencyError::ResourceLimitExceeded(m) && m@ == queue_full_message(),
            r is Ok ==> r == Ok::<Option<CacheOperation<V>>, ConsistencyError>(None)
                && final(self).queue() == old(self).queue().push(CacheOperation::Clear),
            r is Err ==> final(self).queue() == old(self).queue(),
    {
        cache.clear();
        self.enqueue(CacheOperation::Clear)
    }

    fn name(&self) -> (r: &'static str)
        ensures
            r@ == "write-behind"@,
    {
        "write-behind"
    }

    fn config(&self) -> (r: ConsistencyConfig)
        ensures
            r == self.settings(),
    {
        self.config
    }
}

/// Applies an operation received from a change propagator to a cache.
pub fn apply_operation<V: Clone>(op: CacheOperation<V>, cache: &mut MemoryCache<V>, now: u64)
    requires
        old(cache).wf(),
    ensures
        final(cache).wf(),
        final(cache).capacity() == old(cache).capacity(),
        final(cache).time_to_live() == old(cache).time_to_live(),
        match op {
            CacheOperation::Write(k, v) => put_result(old(cache).contents(), old(cache).capacity(),
                old(cache).time_to_live(), k@, v, now, final(cache).contents()),
            CacheOperation::Invalidate(k) => final(cache).contents() == old(cache).contents().remove((0int, k@)),
            CacheOperation::Clear => final(cache).contents() == Map::<(int, Seq<char>), CacheEntry<V>>::empty(),
        },
{
    match op {
        CacheOperation::Write(k, v) => cache.put(k, v, now),
        CacheOperation::Invalidate(k) => cache.remove(&k),
        CacheOperation::Clear => cache.clear(),
    }
}

/// What applying a copy of `op` at `now` makes of a cache holding
/// `before`: a write stores a clone of its value.
pub open spec fn op_effect<V: Clone>(before: Contents<V>, cap: usize, ttl: Option<TimeSpan>, op: CacheOperation<V>,
    now: u64, after: Contents<V>) -> bool {
    match op {
        CacheOperation::Write(k, v) => exists|w: V| cloned(v, w) && #[trigger] put_result(before, cap, ttl, k@, w, now, after),
        CacheOperation::Invalidate(k) => after == before.remove((0int, k@)),
        CacheOperation::Clear => after == Map::<(int, Seq<char>), CacheEntry<V>>::empty(),
    }
}

/// A copy of an operation, its value cloned.
fn duplicate_op<V: Clone>(op: &CacheOperation<V>) -> (r: CacheOperation<V>)
    ensures
        match (*op, r) {
            (CacheOperation::Write(k, v), CacheOperation::Write(k2, v2)) => k2@ == k@ && cloned(v, v2),
            (CacheOperation::Invalidate(k), CacheOperation::Invalidate(k2)) => k2@ == k@,
            (CacheOperation::Clear, CacheOperation::Clear) => true,
            _ => false,
        },
{
    match op {
        CacheOperation::Write(k, v) => CacheOperation::Write(k.clone(), v.clone()),
        CacheOperation::Invalidate(k) => CacheOperation::Invalidate(k.clone()),
        CacheOperation::Clear => CacheOperation::Clear,
    }
}

/// Carries the changes of one cache to the other caches registered with
/// it, which it holds.
#[derive(Debug)]
pub struct ChangePropagator<V> {
    caches: KeyedMap<String, MemoryCache<V>>,
}

impl<V: Clone> ChangePropagator<V> {
    /// The names are distinct and every cache is well formed.
    pub closed spec fn wf(&self) -> bool {
        &&& self.caches.wf()
        &&& forall|k: (int, Seq<char>)| #[trigger] self.caches.view_map().dom().contains(k) ==> self.caches.view_map()[k].wf()
    }

    /// The registered caches by name.
    pub closed spec fn caches_view(&self) -> Map<(int, Seq<char>), MemoryCache<V>> {
        self.caches.view_map()
    }

    /// A propagator without caches.
    pub fn new() -> (r: Self)
        ensures
            r.wf(),
            r.caches_view() == Map::<(int, Seq<char>), MemoryCache<V>>::empty(),
    {
        ChangePropagator { caches: KeyedMap::new() }
    }

    /// Register a cache under a name, replacing one registered under it.
    pub fn register_cache(&mut self, name: &str, cache: MemoryCache<V>)
        requires
            old(self).wf(),
            cache.wf(),
        ensures
            final(self).wf(),
            final(self).caches_view() == old(self).caches_view().insert((0int, name@), cache),
    {
        self.caches.insert(name.to_owned(), cache);
    }

    /// Unregister the cache registered under a name, if any.
    pub fn unregister_cache(&mut self, name: &str)
        requires
            old(self).wf(),
        ensures
            final(self).wf(),
            final(self).caches_view() == old(self).caches_view().remove((0int, name@)),
    {
        let _ = self.caches.remove(&name.to_owned());
    }

    /// The cache registered under a name, to use and change in place.
    pub fn cache_mut(&mut self, name: &str) -> (r: Option<&mut MemoryCache<V>>)
        requires
            old(self).wf(),
        ensures
            r is None ==> !old(self).caches_view().dom().contains((0int, name@)) && *final(self) == *old(self),
            r is Some ==> old(self).caches_view().dom().contains((0int, name@)),
            r is Some ==> *r->0 == old(self).caches_view()[(0int, name@)],
            r is Some ==> final(self).caches_view() == old(self).caches_view().insert((0int, name@), *final(r->0)),
            r is Some ==> (final(r->0).wf() ==> final(self).wf()),
            r is Some ==> final(self).names() == old(self).names(),
    {
        self.caches.get_mut(&name.to_owned())
    }

    /// The names of the registered caches, in order of registration.
    pub closed spec fn names(&self) -> Seq<(int, Seq<char>)> {
        self.caches.key_seq()
    }

    /// Apply an operation, at time `now`, to every registered cache.
    pub fn propagate(&mut self, op: CacheOperation<V>, now: u64)
        requires
            old(self).wf(),
        ensures
            final(self).wf(),
            final(self).caches_view().dom() == old(self).caches_view().dom(),
            forall|k: (int, Seq<char>)| #[trigger] old(self).caches_view().dom().contains(k) ==> {
                let (c0, c1) = (old(self).caches_view()[k], final(self).caches_view()[k]);
                &&& c1.capacity() == c0.capacity()
                &&& c1.time_to_live() == c0.time_to_live()
                &&& op_effect(c0.contents(), c0.capacity(), c0.time_to_live(), op, now, c1.contents())
            },
    {
        let n = self.caches.len();
        let ghost keys = self.caches.key_seq();
        let ghost start = self.caches_view();
        let mut i: usize = 0;
        while i < n
            invariant
                self.wf(),
                i <= n,
                n == keys.len(),
                keys == old(self).names(),
                self.caches.key_seq() == keys,
                start == old(self).caches_view(),
                self.caches_view().dom() == start.dom(),
                forall|j: int| 0 <= j < n ==> start.dom().contains(#[trigger] keys[j]),
                forall|j: int| i <= j < n ==> #[trigger] self.caches_view()[keys[j]] == start[keys[j]],
                forall|j: int| 0 <= j < i ==> {
                    let (c0, c1) = (start[#[trigger] keys[j]], self.caches_view()[keys[j]]);
                    &&& c1.capacity() == c0.capacity()
                    &&& c1.time_to_live() == c0.time_to_live()
                    &&& op_effect(c0.contents(), c0.capacity(), c0.time_to_live(), op, now, c1.contents())
                },
            decreases n - i,
        {
            let name = self.caches.entry_at(i).0.clone();
            proof {
                self.caches.lemma_entry_in_view(i as int);
                assert(keys[i as int] == (0int, name@));
            }
            let ghost before = self.caches_view();
            let copy = duplicate_op(&op);
            match self.cache_mut(name.as_str()) {
                Some(c) => {
                    apply_operation(copy, c, now);
                },
                None => {},
            }
            proof {
                assert forall|j: int| 0 <= j < n && j != i implies #[trigger] keys[j] != keys[i as int] by {
                    self.caches.lemma_key_seq_distinct(j, i as int);
                }
            }
            i = i + 1;
        }
        proof {
            assert forall|k: (int, Seq<char>)| #[trigger] start.dom().contains(k) implies {
                let (c0, c1) = (start[k], self.caches_view()[k]);
                &&& c1.capacity() == c0.capacity()
                &&& c1.time_to_live() == c0.time_to_live()
                &&& op_effect(c0.contents(), c0.capacity(), c0.time_to_live(), op, now, c1.contents())
            } by {
                let j = choose|j: int| 0 <= j < self.caches.entry_seq().len()
                    && #[trigger] self.caches.entry_seq()[j].0.lookup_key() == k;
                assert(keys[j] == k);
            }
        }
    }
}

/// A cache whose changes go through a consistency strategy.
#[derive(Debug)]
pub struct ConsistentCache<V, S> {
    /// The underlying cache
    cache: MemoryCache<V>,
    /// The consistency strategy
    strategy: S,
}

impl<V: Clone, S: CacheConsistencyStrategy<V>> ConsistentCache<V, S> {
    pub closed spec fn wf(&self) -> bool {
        self.cache.wf() && self.strategy.inv()
    }

    /// The underlying cache, as a value.
    pub closed spec fn cache_view(&self) -> MemoryCache<V> {
        self.cache
    }

    /// The strategy, as a value.
    pub closed spec fn strategy_view(&self) -> S {
        self.strategy
    }

    /// Create a new consistent cache.
    pub fn new(cache: MemoryCache<V>, strategy: S) -> (r: Self)
        requires
            cache.wf(),
            strategy.inv(),
        ensures
            r.wf(),
            r.cache_view() == cache,
            r.strategy_view() == strategy,
    {
        ConsistentCache { cache, strategy }
    }

    /// Get the underlying cache.
    pub fn cache(&self) -> (r: &MemoryCache<V>)
        ensures
            *r == self.cache_view(),
    {
        &self.cache
    }

    /// Get the underlying cache, to change it without the strategy.
    pub fn cache_mut(&mut self) -> (r: &mut MemoryCache<V>)
        ensures
            *r == old(self).cache_view(),
            final(self).cache_view() == *final(r),
            final(self).strategy_view() == old(self).strategy_view(),
    {
        &mut self.cache
    }

    /// Get the consistency strategy, to work its queue or data source.
    pub fn strategy_mut(&mut self) -> (r: &mut S)
        ensures
            *r == old(self).strategy_view(),
            final(self).strategy_view() == *final(r),
            final(self).cache_view() == old(self).cache_view(),
    {
        &mut self.strategy
    }

    /// Get the consistency strategy.
    pub fn strategy(&self) -> (r: &S)
        ensures
            *r == self.strategy_view(),
    {
        &self.strategy
    }

    /// Get a value, from the underlying cache.
    pub fn get(&mut self, key: &String, now: u64) -> (r: Option<V>)
        requires
            old(self).wf(),
        ensures
            final(self).wf(),
            final(self).strategy_view() == old(self).strategy_view(),
            crate::repositories::memory_cache::get_result(old(self).cache_view().contents(),
                old(self).cache_view().time_to_live(), key@, now, r, final(self).cache_view().contents()),
            final(self).cache_view().capacity() == old(self).cache_view().capacity(),
            final(self).cache_view().time_to_live() == old(self).cache_view().time_to_live(),
    {
        self.cache.get(key, now)
    }

    /// Put a value, through the strategy.
    pub fn put(&mut self, key: String, value: V, now: u64) -> (r: Result<Option<CacheOperation<V>>, ConsistencyError>)
        requires
            old(self).wf(),
        ensures
            final(self).wf(),
            old(self).strategy_view().write_effect(old(self).cache_view().contents(), old(self).cache_view().capacity(),
                old(self).cache_view().time_to_live(), key@, value, now, final(self).cache_view().contents(), r is Ok),
            final(self).cache_view().capacity() == old(self).cache_view().capacity(),
            final(self).cache_view().time_to_live() == old(self).cache_view().time_to_live(),
    {
        self.strategy.process_write(key, value, &mut self.cache, now)
    }

    /// Remove a value, through the strategy.
    pub fn remove(&mut self, key: &String) -> (r: Result<Option<CacheOperation<V>>, ConsistencyError>)
        requires
            old(self).wf(),
        ensures
            final(self).wf(),
            old(self).strategy_view().invalidate_effect(old(self).cache_view().contents(), key@,
                final(self).cache_view().contents(), r is Ok),
            final(self).cache_view().capacity() == old(self).cache_view().capacity(),
            final(self).cache_view().time_to_live() == old(self).cache_view().time_to_live(),
    {
        self.strategy.process_invalidation(key, &mut self.cache)
    }

    /// Clear the cache, through the strategy.
    pub fn clear(&mut self) -> (r: Result<Option<CacheOperation<V>>, ConsistencyError>)
        requires
            old(self).wf(),
        ensures
            final(self).wf(),
            old(self).strategy_view().clear_effect(old(self).cache_view().contents(),
                final(self).cache_view().contents(), r is Ok),
            final(self).cache_view().capacity() == old(self).cache_view().capacity(),
            final(self).cache_view().time_to_live() == old(self).cache_view().time_to_live(),
    {
        self.strategy.process_clear(&mut self.cache)
    }

    /// The number of entries in the underlying cache.
    pub fn len(&self) -> (r: usize)
        requires
            self.wf(),
        ensures
            r == self.cache_view().contents().dom().len(),
    {
        self.cache.len()
    }
}

/// Cache consistency factory for creating consistent caches.
#[derive(Debug)]
pub struct CacheConsistencyFactory;

impl CacheConsistencyFactory {
    /// Create a write-through consistent cache.
    pub fn write_through<V: Clone, D: DataSource<V>>(cache: MemoryCache<V>, data_source: D,
        config: Option<ConsistencyConfig>, has_propagator: bool) -> (r: ConsistentCache<V, WriteThroughStrategy<D>>)
        requires
            cache.wf(),
        ensures
            r.wf(),
            r.cache_view() == cache,
            r.strategy_view().data_source == data_source,
            r.strategy_view().has_propagator == has_propagator,
            match config {
                Some(c) => r.strategy_view().config == c,
                None => default_consistency(r.strategy_view().config),
            },
    {
        let c = match config {
            Some(c) => c,
            None => ConsistencyConfig::default(),
        };
        ConsistentCache::new(cache, WriteThroughStrategy::new(data_source, c, has_propagator))
    }

    /// Create a write-behind consistent cache.
    pub fn write_behind<V: Clone>(cache: MemoryCache<V>, config: Option<ConsistencyConfig>, has_propagator: bool)
        -> (r: ConsistentCache<V, WriteBehindStrategy<V>>)
        requires
            cache.wf(),
        ensures
            r.wf(),
            r.cache_view() == cache,
            r.strategy_view().queue().len() == 0,
            r.strategy_view().propagates() == has_propagator,
            match config {
                Some(c) => r.strategy_view().settings() == c,
                None => default_consistency(r.strategy_view().settings()),
            },
    {
        let c = match config {
            Some(c) => c,
            None => ConsistencyConfig::default(),
        };
        ConsistentCache::new(cache, WriteBehindStrategy::new(c, has_propagator))
    }

    /// Create an invalidation-based consistent cache.
    pub fn invalidation<V: Clone>(cache: MemoryCache<V>, config: Option<ConsistencyConfig>, has_propagator: bool)
        -> (r: ConsistentCache<V, InvalidationStrategy>)
        requires
            cache.wf(),
        ensures
            r.wf(),
            r.cache_view() == cache,
            r.strategy_view().has_propagator == has_propagator,
            match config {
                Some(c) => r.strategy_view().config == c,
                None => default_consistency(r.strategy_view().config),
            },
    {
        let c = match config {
            Some(c) => c,
            None => ConsistencyConfig::default(),
        };
        ConsistentCache::new(cache, InvalidationStrategy::new(c, has_propagator))
    }

    /// Create a time-based expiration consistent cache.
    pub fn expiration<V: Clone>(cache: MemoryCache<V>, config: Option<ConsistencyConfig>, ttl: TimeSpan)
        -> (r: ConsistentCache<V, ExpirationStrategy>)
        requires
            cache.wf(),
        ensures
            r.wf(),
            r.cache_view() == cache,
            r.strategy_view().ttl == ttl,
            match config {
                Some(c) => r.strategy_view().config == c,
                None => default_consistency(r.strategy_view().config),
            },
    {
        let c = match config {
            Some(c) => c,
            None => ConsistencyConfig::default(),
        };
        ConsistentCache::new(cache, ExpirationStrategy::new(c, ttl))
    }
}

/// Under write-through, a read after a successful write gives back what was
/// written, within the time-to-live.
pub proof fn law_write_through_read_after_write<V: Clone, D: DataSource<V>>(
    s: WriteThroughStrategy<D>,
    c0: Contents<V>,
    cap: usize,
    ttl: Option<TimeSpan>,
    key: Seq<char>,
    value: V,
    t0: u64,
    c1: Contents<V>,
    t1: u64,
    r: Option<V>,
    c2: Contents<V>,
)
    requires
        CacheConsistencyStrategy::<V>::write_effect(&s, c0, cap, ttl, key, value, t0, c1, true),
        get_result(c1, ttl, key, t1, r, c2),
        t0 <= t1,
        ttl is Some ==> t1 - t0 < ttl->0.millis,
    ensures
        r is Some,
        cloned(value, r->0),
{
    law_get_after_put(c0, cap, ttl, key, value, t0, c1, t1, r, c2);
}

/// Under write-behind, a read after a write gives back what was written,
/// within the time-to-live, whether or not the write could be queued.
pub proof fn law_write_behind_read_after_write<V: Clone>(
    s: WriteBehindStrategy<V>,
    c0: Contents<V>,
    cap: usize,
    ttl: Option<TimeSpan>,
    key: Seq<char>,
    value: V,
    t0: u64,
    c1: Contents<V>,
    ok: bool,
    t1: u64,
    r: Option<V>,
    c2: Contents<V>,
)
    requires
        CacheConsistencyStrategy::<V>::write_effect(&s, c0, cap, ttl, key, value, t0, c1, ok),
        get_result(c1, ttl, key, t1, r, c2),
        t0 <= t1,
        ttl is Some ==> t1 - t0 < ttl->0.millis,
    ensures
        r is Some,
        cloned(value, r->0),
{
    law_get_after_put(c0, cap, ttl, key, value, t0, c1, t1, r, c2);
}

/// Under the expiration strategy, a value written is read back until its
/// time-to-live has passed, and not after.
pub proof fn law_expiration_read_after_write<V: Clone>(
    s: ExpirationStrategy,
    c0: Contents<V>,
    cap: usize,
    ttl: TimeSpan,
    key: Seq<char>,
    value: V,
    t0: u64,
    c1: Contents<V>,
    ok: bool,
    t1: u64,
    r: Option<V>,
    c2: Contents<V>,
)
    requires
        CacheConsistencyStrategy::<V>::write_effect(&s, c0, cap, Some(ttl), key, value, t0, c1, ok),
        get_result(c1, Some(ttl), key, t1, r, c2),
        t0 <= t1,
    ensures
        t1 - t0 < ttl.millis ==> r is Some && cloned(value, r->0),
        t1 - t0 >= ttl.millis ==> r is None,
{
    if t1 - t0 < ttl.millis {
        law_get_after_put(c0, cap, Some(ttl), key, value, t0, c1, t1, r, c2);
    } else {
        law_expired_after_ttl(c0, cap, ttl, key, value, t0, c1, t1, r, c2);
    }
}

/// Under the invalidation strategy, a write drops the key: a read right
/// after it finds nothing.
pub proof fn law_invalidation_write_then_miss<V: Clone>(
    s: InvalidationStrategy,
    c0: Contents<V>,
    cap: usize,
    ttl: Option<TimeSpan>,
    key: Seq<char>,
    value: V,
    t0: u64,
    c1: Contents<V>,
    ok: bool,
    t1: u64,
    r: Option<V>,
    c2: Contents<V>,
)
    requires
        CacheConsistencyStrategy::<V>::write_effect(&s, c0, cap, ttl, key, value, t0, c1, ok),
        get_result(c1, ttl, key, t1, r, c2),
    ensures
        r is None,
{
    law_get_after_remove(c0, ttl, key, t1, r, c2);
}

/// A propagated invalidation reaches every cache: once it is applied to a
/// registered cache, a read of the key there finds nothing.
pub proof fn law_propagated_invalidation_misses<V: Clone>(
    c0: Contents<V>,
    cap: usize,
    ttl: Option<TimeSpan>,
    key: String,
    now: u64,
    c1: Contents<V>,
    t: u64,
    r: Option<V>,
    c2: Contents<V>,
)
    requires
        op_effect(c0, cap, ttl, CacheOperation::Invalidate(key), now, c1),
        get_result(c1, ttl, key@, t, r, c2),
    ensures
        r is None,
{
    law_get_after_remove(c0, ttl, key@, t, r, c2);
}

} // verus!
