use crate::dto::auth::{check_credentials, credential_violations};
use crate::entity::user_account::{DateTimeWithTimeZone, Model};
use crate::infrastructure::errors::{AppError, AppResult};
use crate::validation::{opt_text, FieldViolationsView, Validate, Violations};
use vstd::prelude::*;

verus! {

/// What a client sends to sign up.
#[derive(Debug, Clone, PartialEq, Eq, Default)]
pub struct UserNewDto {
    pub username: Option<String>,
    pub password: Option<String>,
}

impl Validate for UserNewDto {
    open spec fn violations(&self) -> Seq<FieldViolationsView> {
        credential_violations(opt_text(self.username), opt_text(self.password))
    }

    fn validate(&self) -> (r: Result<(), Violations>) {
        check_credentials(&self.username, &self.password)
    }
}

/// What is shown of an account.
#[derive(Debug, Clone, PartialEq, Eq)]
pub struct UserReadResponse {
    pub username: String,
    pub created_at: DateTimeWithTimeZone,
}

impl UserReadResponse {
    /// The public part of an account record: no identifier, no password hash.
    pub fn from_model(model: Model) -> (r: AppResult<Self>)
        ensures
            r == Ok::<Self, AppError>(
                UserReadResponse { username: model.username, created_at: model.created_at },
            ),
    {
        Ok(UserReadResponse { username: model.username, created_at: model.created_at })
    }
}

} // verus!
