//! Caching, cache warming, query text and validation for the repositories.

pub mod cache;
pub mod cache_consistency;
pub mod cache_warming;
pub mod glob;
pub mod memory_cache;
pub mod metrics;
pub mod monitored;
pub mod query_builder;
pub mod task_repository;
pub mod task_query;
pub mod validation;
