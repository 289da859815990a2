//! Shapes that cross the wire.

pub mod auth;
pub mod base;
pub mod user;
