use crate::dto::user::UserNewDto;
use crate::entity::user_account::{ActiveModel, Model};
use crate::hasher::{hash, password_matches, MAX_PASSWORD_BYTES};
use crate::infrastructure::errors::{AppError, AppResult};
use crate::infrastructure::uuid::{generate_uuid, uuid_parsed, Uuid};
use vstd::prelude::*;
use vstd::utf8::encode_utf8;

verus! {

/// The decisions of the account repository. The store itself is asked elsewhere.
pub struct UserRepository;

impl UserRepository {
    /// Reads the identifier under which an account is looked up.
    pub fn parse_id(user_id: &str) -> (r: AppResult<Uuid>)
        ensures
            match r {
                Ok(id) => uuid_parsed(user_id@) == Some(id.bits),
                Err(e) => uuid_parsed(user_id@) is None && e is UuidParseError,
            },
    {
        match Uuid::parse_str(user_id) {
            Ok(id) => Ok(id),
            Err(complaint) => Err(AppError::UuidParseError(complaint)),
        }
    }

    /// The outcome of a lookup: the record, or a bad request where the store
    /// holds none.
    pub fn require_found(record: Option<Model>) -> (r: AppResult<Model>)
        ensures
            match record {
                Some(account) => r == Ok::<Model, AppError>(account),
                None => r matches Err(AppError::BadRequest(m)) && m@ == "user not found"@,
            },
    {
        match record {
            Some(account) => Ok(account),
            None => Err(AppError::BadRequest(String::from_str("user not found"))),
        }
    }

    /// The record to store for a new account: a fresh identifier, the
    /// username and the hash of the password under a fresh salt. A shape
    /// without username or password is an internal error, and so is a
    /// password that cannot be hashed; one of at most
    /// [`MAX_PASSWORD_BYTES`] bytes always can.
    pub fn create(dto: &UserNewDto) -> (r: AppResult<ActiveModel>)
        ensures
            match r {
                Ok(account) => {
                    &&& dto.username is Some
                    &&& dto.password is Some
                    &&& account.id.spec_version() == 7
                    &&& account.username@ == dto.username->0@
                    &&& password_matches(dto.password->0@, account.password@)
                },
                Err(e) => e == AppError::InternalServerError,
            },
            dto.username is Some && dto.password is Some && encode_utf8(dto.password->0@).len()
                <= MAX_PASSWORD_BYTES ==> r is Ok,
    {
        let id = generate_uuid();
        let (username, password) = match (&dto.username, &dto.password) {
            (Some(username), Some(password)) => (username, password),
            _ => {
                return Err(AppError::InternalServerError);
            },
        };
        match hash(password.as_str()) {
            Ok(password_hash) => Ok(
                ActiveModel { id, username: username.clone(), password: password_hash },
            ),
            Err(e) => Err(e),
        }
    }
}

} // verus!
