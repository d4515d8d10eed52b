use vstd::prelude::*;

verus! {

/// Record of an actor interaction during a service operation.
#[derive(Debug, Clone, PartialEq, Eq)]
pub struct ActorInteraction {
    pub actor_type: String,
    pub operation: String,
    pub duration_ms: u64,
    pub success: bool,
}

/// Metadata attached to a service operation's result.
#[derive(Debug, Clone, PartialEq, Eq)]
pub struct ServiceMetadata {
    pub request_id: u128,
    pub execution_time_ms: u64,
    pub cache_hit: bool,
    pub actor_interactions: Vec<ActorInteraction>,
}

/// A service operation's result with its metadata.
#[derive(Debug, Clone, PartialEq, Eq)]
pub struct ServiceResult<T> {
    pub data: T,
    pub metadata: Option<ServiceMetadata>,
}

/// A service event, its payloads as JSON text.
#[derive(Debug, Clone, PartialEq, Eq)]
pub struct ServiceEvent {
    pub event_type: String,
    pub entity_type: String,
    pub entity_id: u128,
    pub workspace_id: Option<u128>,
    pub data: String,
    pub metadata: Option<String>,
}

/// Caching of a service's values, implemented by the caller.
pub trait Cacheable<K, V> {
    /// Get a cached value.
    fn get_cached(&self, key: &K) -> Option<V>;

    /// Set a cached value with an optional time-to-live in seconds.
    fn set_cached(&mut self, key: &K, value: &V, ttl_seconds: Option<u64>);

    /// Invalidate a cached value.
    fn invalidate_cache(&mut self, key: &K);

    /// Clear all cached values of the service.
    fn clear_cache(&mut self);
}

/// Result of a validation.
#[derive(Debug, Clone, PartialEq, Eq)]
pub struct ValidationResult {
    pub valid: bool,
    pub errors: Vec<ValidationError>,
    pub warnings: Vec<ValidationWarning>,
}

/// Validation error.
#[derive(Debug, Clone, PartialEq, Eq)]
pub struct ValidationError {
    pub field: String,
    pub code: String,
    pub message: String,
}

/// Validation warning.
#[derive(Debug, Clone, PartialEq, Eq)]
pub struct ValidationWarning {
    pub field: String,
    pub code: String,
    pub message: String,
}

/// Sort order for search results.
#[derive(Debug, Clone, Copy, PartialEq, Eq, Structural)]
pub enum SortOrder {
    Asc,
    Desc,
}

/// The actor system that services communicate through.
#[derive(Debug)]
pub struct ActorSystem {}

impl ActorSystem {
    /// Create a new actor system.
    pub fn new() -> (r: Self)
        ensures
            r == (ActorSystem {}),
    {
        ActorSystem {}
    }
}

} // verus!
