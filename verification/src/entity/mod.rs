//! Records of the persistence layer, as plain values.

pub mod user_account;
