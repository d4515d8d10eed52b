//! Secure defaults and threat modeling.

pub mod secure_defaults;
pub mod threat_modeling;
