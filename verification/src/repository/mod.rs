//! What the account repository decides before and after it asks the store.

pub mod user;
