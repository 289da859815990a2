//! Typed extraction of request data.

pub mod validator;
