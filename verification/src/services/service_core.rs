use vstd::prelude::*;
use crate::services::traits::{
    ActorInteraction, ServiceEvent, ServiceMetadata, ServiceResult, ValidationError, ValidationResult,
    ValidationWarning,
};

verus! {

/// Draws a fresh request identifier with `uuid::Uuid::new_v4`, as its 128
/// bits. Nothing is claimed of the value: it is random.
#[verifier::external_body]
fn new_request_id() -> (r: u128) {
    uuid::Uuid::new_v4().as_u128()
}

/// A cache of service values, keyed by text.
pub trait CacheProvider {
    fn get(&self, key: &str) -> Option<String>;

    fn set(&mut self, key: &str, value: &str, ttl_seconds: Option<u64>);

    fn delete(&mut self, key: &str);

    fn clear(&mut self, pattern: &str);
}

/// A cache provider for development that holds nothing.
#[derive(Debug)]
pub struct InMemoryCache {}

impl CacheProvider for InMemoryCache {
    fn get(&self, key: &str) -> (r: Option<String>)
        ensures
            r is None,
    {
        None
    }

    fn set(&mut self, key: &str, value: &str, ttl_seconds: Option<u64>)
        ensures
            *final(self) == *old(self),
    {
    }

    fn delete(&mut self, key: &str)
        ensures
            *final(self) == *old(self),
    {
    }

    fn clear(&mut self, pattern: &str)
        ensures
            *final(self) == *old(self),
    {
    }
}

/// An emitter of service events.
pub trait ServiceEventEmitter {
    fn emit(&self, event: &ServiceEvent);
}

/// An event emitter for the actor event bus; for now it sends nothing.
#[derive(Debug, Clone)]
pub struct ActorEventEmitter {}

impl ServiceEventEmitter for ActorEventEmitter {
    fn emit(&self, event: &ServiceEvent) {
    }
}

/// Performance monitoring of a service operation; times are milliseconds
/// since the Unix epoch.
#[derive(Debug)]
pub struct ServiceMetrics {
    pub start_time_ms: u64,
    pub interactions: Vec<ActorInteraction>,
}

impl ServiceMetrics {
    /// Start monitoring now, with no interactions.
    pub fn new() -> (r: Self)
        ensures
            r.interactions@.len() == 0,
            r.start_time_ms <= crate::clock::latest_time_ms(),
    {
        ServiceMetrics { start_time_ms: crate::clock::now_millis(), interactions: Vec::new() }
    }

    /// Record an actor interaction.
    pub fn add_interaction(&mut self, actor_type: String, operation: String, duration_ms: u64, success: bool)
        ensures
            final(self).start_time_ms == old(self).start_time_ms,
            final(self).interactions@ == old(self).interactions@.push(
                ActorInteraction { actor_type, operation, duration_ms, success },
            ),
    {
        self.interactions.push(ActorInteraction { actor_type, operation, duration_ms, success });
    }

    /// Finish monitoring at time `now_ms`: the result carries the data, the
    /// time elapsed since the start (0 if the clock went back) and the
    /// interactions, not from the cache.
    pub fn finish_at<T>(self, data: T, now_ms: u64) -> (r: ServiceResult<T>)
        ensures
            r.data == data,
            r.metadata matches Some(m) && m.execution_time_ms == (if now_ms >= self.start_time_ms {
                now_ms - self.start_time_ms
            } else {
                0
            }) && !m.cache_hit && m.actor_interactions == self.interactions,
    {
        let elapsed = if now_ms >= self.start_time_ms { now_ms - self.start_time_ms } else { 0 };
        ServiceResult {
            data,
            metadata: Some(ServiceMetadata {
                request_id: new_request_id(),
                execution_time_ms: elapsed,
                cache_hit: false,
                actor_interactions: self.interactions,
            }),
        }
    }

    /// Finish monitoring now.
    pub fn finish<T>(self, data: T) -> (r: ServiceResult<T>)
        ensures
            r.data == data,
            r.metadata matches Some(m) && !m.cache_hit && m.actor_interactions == self.interactions,
    {
        let now = crate::clock::now_millis();
        self.finish_at(data, now)
    }
}

/// A result served from the cache: no time taken, no interactions.
pub fn create_cached_result<T>(data: T) -> (r: ServiceResult<T>)
    ensures
        r.data == data,
        r.metadata matches Some(m) && m.execution_time_ms == 0 && m.cache_hit && m.actor_interactions@.len() == 0,
{
    ServiceResult {
        data,
        metadata: Some(ServiceMetadata {
            request_id: new_request_id(),
            execution_time_ms: 0,
            cache_hit: true,
            actor_interactions: Vec::new(),
        }),
    }
}

/// Pagination parameters.
#[derive(Debug, Clone, Copy, PartialEq, Eq, Structural)]
pub struct PaginationParams {
    pub limit: Option<u32>,
    pub offset: Option<u32>,
}

impl PaginationParams {
    /// Create pagination parameters.
    pub fn new(limit: Option<u32>, offset: Option<u32>) -> (r: Self)
        ensures
            r.limit == limit && r.offset == offset,
    {
        PaginationParams { limit, offset }
    }

    /// The page size: 20 by default, at most 100.
    pub fn limit(&self) -> (r: u32)
        ensures
            r == match self.limit {
                Some(l) => if l <= 100 { l } else { 100 },
                None => 20,
            },
    {
        let l = match self.limit {
            Some(l) => l,
            None => 20,
        };
        if l <= 100 { l } else { 100 }
    }

    /// The offset: 0 by default.
    pub fn offset(&self) -> (r: u32)
        ensures
            r == match self.offset {
                Some(o) => o,
                None => 0,
            },
    {
        match self.offset {
            Some(o) => o,
            None => 0,
        }
    }
}

/// A message given to a service error.
pub trait ServiceErrorExt {
    fn into_service_error(self) -> String;
}

/// Builder of validation results.
#[derive(Debug)]
pub struct ValidationBuilder {
    errors: Vec<ValidationError>,
    warnings: Vec<ValidationWarning>,
}

/// The fields, code and message of a validation entry.
pub open spec fn entry_text(field: Seq<char>, code: Seq<char>, message: Seq<char>) -> (Seq<char>, Seq<char>, Seq<char>) {
    (field, code, message)
}

impl ValidationBuilder {
    /// The errors so far, as texts.
    pub closed spec fn error_texts(&self) -> Seq<(Seq<char>, Seq<char>, Seq<char>)> {
        self.errors@.map_values(|e: ValidationError| entry_text(e.field@, e.code@, e.message@))
    }

    /// The warnings so far, as texts.
    pub closed spec fn warning_texts(&self) -> Seq<(Seq<char>, Seq<char>, Seq<char>)> {
        self.warnings@.map_values(|w: ValidationWarning| entry_text(w.field@, w.code@, w.message@))
    }

    /// A builder with no errors and no warnings.
    pub fn new() -> (r: Self)
        ensures
            r.error_texts().len() == 0,
            r.warning_texts().len() == 0,
    {
        let r = ValidationBuilder { errors: Vec::new(), warnings: Vec::new() };
        assert(r.error_texts() =~= Seq::empty());
        assert(r.warning_texts() =~= Seq::empty());
        r
    }

    /// Add an error.
    pub fn add_error(&mut self, field: &str, code: &str, message: &str)
        ensures
            final(self).error_texts() == old(self).error_texts().push(entry_text(field@, code@, message@)),
            final(self).warning_texts() == old(self).warning_texts(),
    {
        self.errors.push(ValidationError { field: field.to_owned(), code: code.to_owned(), message: message.to_owned() });
        assert(self.error_texts() =~= old(self).error_texts().push(entry_text(field@, code@, message@)));
    }

    /// Add a warning.
    pub fn add_warning(&mut self, field: &str, code: &str, message: &str)
        ensures
            final(self).warning_texts() == old(self).warning_texts().push(entry_text(field@, code@, message@)),
            final(self).error_texts() == old(self).error_texts(),
    {
        self.warnings.push(ValidationWarning { field: field.to_owned(), code: code.to_owned(), message: message.to_owned() });
        assert(self.warning_texts() =~= old(self).warning_texts().push(entry_text(field@, code@, message@)));
    }

    /// Build the result: valid exactly when there is no error.
    pub fn build(self) -> (r: ValidationResult)
        ensures
            r.valid == (self.error_texts().len() == 0),
            r.errors@.map_values(|e: ValidationError| entry_text(e.field@, e.code@, e.message@)) == self.error_texts(),
            r.warnings@.map_values(|w: ValidationWarning| entry_text(w.field@, w.code@, w.message@)) == self.warning_texts(),
    {
        let valid = self.errors.len() == 0;
        ValidationResult { valid, errors: self.errors, warnings: self.warnings }
    }
}

} // verus!
