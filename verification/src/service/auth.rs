//! Sign-in: the password is checked and a token is issued.

use crate::dto::auth::{ClaimsView, OAuth2Response};
use crate::entity::user_account::Model;
use crate::hasher::{password_matches, verify};
use crate::infrastructure::config::{token_lifetime, Config};
use crate::infrastructure::errors::{AppError, AppResult};
use crate::infrastructure::uuid::{uuid_hyphenated, uuid_parsed};
use crate::token::{in_force, mintable, token_claims, token_outcome, TokenCodec, TokenError};
use vstd::prelude::*;

verus! {

/// Whether the account found for a username may sign in with `password`:
/// there is an account, it has not been deleted and the password is its own.
pub open spec fn may_sign_in(account: Option<Model>, password: Seq<char>) -> bool {
    account matches Some(found) && found.deleted_at is None && password_matches(
        password,
        found.password@,
    )
}

/// The claim of the token that is issued to `account` at time `now`.
pub open spec fn issued_claim(config: Config, account: Model, now: u64) -> ClaimsView {
    ClaimsView {
        exp: (now + token_lifetime(config.jwt_expire)) as nat,
        iat: now as nat,
        sub: uuid_hyphenated(account.id.bits),
    }
}

/// The sign-in service.
pub struct AuthService;

impl AuthService {
    /// Signs in at time `now` with `password`, given the account that was
    /// found for the username. An unknown or deleted account and a wrong
    /// password are told alike, as unauthorized. Otherwise a bearer token is
    /// issued whose subject is the account's identifier and which verifies
    /// under the configured secret for the configured lifetime. The token is
    /// issued wherever the times fit the machine's word and the token can be
    /// minted; else the failure is an internal error.
    pub fn sign_in(config: &Config, account: Option<Model>, password: &str, now: u64) -> (r:
        AppResult<OAuth2Response>)
        ensures
            !may_sign_in(account, password@) ==> r == Err::<OAuth2Response, AppError>(
                AppError::Unauthorized,
            ),
            may_sign_in(account, password@) ==> match r {
                Ok(answer) => {
                    let claim = issued_claim(*config, account->0, now);
                    &&& answer.token_type@ == "Bearer"@
                    &&& answer.expires_in == config.jwt_expire
                    &&& token_claims(answer.access_token@, config.jwt_secret@) == Ok::<
                        ClaimsView,
                        TokenError,
                    >(claim)
                    &&& uuid_parsed(claim.sub) == Some(account->0.id.bits)
                    &&& forall|at: nat| #[trigger]
                        token_outcome(answer.access_token@, config.jwt_secret@, at) == in_force(
                            claim,
                            at,
                        )
                },
                Err(e) => e == AppError::InternalServerError,
            },
            r is Ok <==> may_sign_in(account, password@) && now + token_lifetime(config.jwt_expire)
                <= usize::MAX && mintable(
                config.jwt_secret@,
                issued_claim(*config, account->0, now),
            ),
    {
        let found = match account {
            Some(found) => found,
            None => {
                return Err(AppError::Unauthorized);
            },
        };
        if found.deleted_at.is_some() || !verify(password, found.password.as_str()) {
            return Err(AppError::Unauthorized);
        }
        let subject = found.id.to_string();
        let codec = TokenCodec::new(config.jwt_secret.as_str());
        let token = match codec.mint(subject.as_str(), now, config.token_lifetime()) {
            Ok(token) => token,
            Err(e) => {
                return Err(e);
            },
        };
        Ok(OAuth2Response::new_bearer(token, config.jwt_expire))
    }
}

} // verus!
