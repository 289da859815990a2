//! Account management and bearer-token authentication for a REST backend:
//! credential hashing, the signed-token codec, request validation, the
//! authentication decisions of the middleware and the error responder.

pub mod dto;
pub mod entity;
pub mod extractor;
pub mod hasher;
pub mod infrastructure;
pub mod json;
pub mod logger;
pub mod middleware;
pub mod repository;
pub mod route;
pub mod server;
pub mod service;
pub mod text;
pub mod token;
pub mod validation;
