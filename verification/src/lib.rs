//! Verified core of the Evo assistant: resource adaptation, progressive
//! enhancement and fallbacks, caching, query text building, validation and
//! threat modeling.

pub mod clock;
pub mod keyed;
pub mod repositories;
pub mod resources;
pub mod security;
pub mod services;
pub mod text;
pub mod time_span;
