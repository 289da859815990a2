//! Configuration, the error taxonomy and identifiers.

pub mod config;
pub mod error_map;
pub mod errors;
pub mod uuid;
