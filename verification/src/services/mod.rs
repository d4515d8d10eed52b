//! Service-layer building blocks: metrics, pagination and validation results,
//! and the decisions of the privacy services.

pub mod consent_management;
pub mod data_deletion_verification;
pub mod data_export;
pub mod data_minimization;
pub mod data_retention;
pub mod data_usage_reporting;
pub mod privacy_analytics;
pub mod privacy_policy;
pub mod service_core;
pub mod traits;
pub mod transaction;
