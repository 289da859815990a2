//! What the service does for a request once its input is validated.

pub mod auth;
