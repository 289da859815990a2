use crate::infrastructure::uuid::Uuid;
use vstd::prelude::*;

verus! {

/// A point in time with the offset of its time zone.
#[derive(Debug, Clone, Copy, PartialEq, Eq, Structural)]
pub struct DateTimeWithTimeZone {
    /// Seconds since the epoch.
    pub timestamp: i64,
    /// Nanoseconds within the second.
    pub nanos: u32,
    /// Offset of the time zone from UTC, in seconds.
    pub offset: i32,
}

/// An account as the persistence layer holds it.
#[derive(Debug, Clone, PartialEq, Eq)]
pub struct Model {
    pub id: Uuid,
    pub username: String,
    /// The hash of the password.
    pub password: String,
    pub created_at: DateTimeWithTimeZone,
    pub deleted_at: Option<DateTimeWithTimeZone>,
}

/// An account that is about to be stored.
#[derive(Debug, Clone, PartialEq, Eq)]
pub struct ActiveModel {
    pub id: Uuid,
    pub username: String,
    /// The hash of the password.
    pub password: String,
}

} // verus!
