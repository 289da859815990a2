//! Authentication of a request to a protected route, as a state machine.
//! The caller reads the header, looks the account up and runs the handler;
//! every decision is taken here.

use crate::dto::auth::{Claims, ClaimsView};
use crate::entity::user_account::Model;
use crate::infrastructure::errors::{AppError, AppResult};
use crate::infrastructure::uuid::{uuid_parsed, Uuid};
use crate::repository::user::UserRepository;
use crate::text::chars_of;
use crate::token::{token_claims, token_outcome, TokenCodec, TokenError};
use vstd::prelude::*;

verus! {

/// Whether `c` has the Unicode property `White_Space`.
pub open spec fn is_whitespace(c: char) -> bool {
    let u = c as u32;
    (0x9 <= u <= 0xd) || u == 0x20 || u == 0x85 || u == 0xa0 || u == 0x1680 || (0x2000 <= u
        <= 0x200a) || u == 0x2028 || u == 0x2029 || u == 0x202f || u == 0x205f || u == 0x3000
}

/// The first place at or after `from` whose character is white space, if
/// `space` is true, or is not, if `space` is false; the length of `s` where
/// there is none.
pub open spec fn first_where(s: Seq<char>, from: int, space: bool) -> int
    decreases s.len() - from,
{
    if from >= s.len() {
        s.len() as int
    } else if is_whitespace(s[from]) == space {
        from
    } else {
        first_where(s, from + 1, space)
    }
}

/// The token of a header of the form `Bearer <token>`: the second of the
/// words that white space separates, where the first word is `Bearer`.
/// `None` where the first word is another one or there is no second word.
pub open spec fn bearer_token(header: Seq<char>) -> Option<Seq<char>> {
    let scheme_start = first_where(header, 0, false);
    let scheme_end = first_where(header, scheme_start, true);
    let token_start = first_where(header, scheme_end, false);
    let token_end = first_where(header, token_start, true);
    if header.subrange(scheme_start, scheme_end) == "Bearer"@ && token_start < header.len() {
        Some(header.subrange(token_start, token_end))
    } else {
        None
    }
}

/// Whether `c` is white space.
pub fn is_space(c: char) -> (r: bool)
    ensures
        r == is_whitespace(c),
{
    let u = c as u32;
    (0x9 <= u && u <= 0xd) || u == 0x20 || u == 0x85 || u == 0xa0 || u == 0x1680 || (0x2000 <= u
        && u <= 0x200a) || u == 0x2028 || u == 0x2029 || u == 0x202f || u == 0x205f || u
        == 0x3000
}

fn scan(chars: &Vec<char>, from: usize, space: bool) -> (i: usize)
    requires
        from <= chars.len(),
    ensures
        from <= i <= chars.len(),
        i == first_where(chars@, from as int, space),
{
    let mut i = from;
    while i < chars.len() && is_space(chars[i]) != space
        invariant
            from <= i <= chars.len(),
            first_where(chars@, from as int, space) == first_where(chars@, i as int, space),
        decreases chars.len() - i,
    {
        i = i + 1;
    }
    i
}

/// The token of an `Authorization` header of the form `Bearer <token>`.
pub fn extract_bearer(header: &str) -> (r: Option<String>)
    ensures
        match r {
            Some(token) => bearer_token(header@) == Some(token@),
            None => bearer_token(header@) is None,
        },
{
    let chars = chars_of(header);
    let scheme_start = scan(&chars, 0, false);
    let scheme_end = scan(&chars, scheme_start, true);
    let token_start = scan(&chars, scheme_end, false);
    let token_end = scan(&chars, token_start, true);
    let scheme = String::from_str(header.substring_char(scheme_start, scheme_end));
    if scheme == String::from_str("Bearer") && token_start < chars.len() {
        Some(String::from_str(header.substring_char(token_start, token_end)))
    } else {
        None
    }
}

/// The `Authorization` header as the caller found it.
#[derive(Debug, Clone, PartialEq, Eq)]
pub enum AuthorizationHeader {
    /// The request has no such header.
    Missing,
    /// The header's value is not visible text.
    Unreadable,
    /// The header's value.
    Text(String),
}

/// Why a request is turned away.
#[derive(Debug, Clone, Copy, PartialEq, Eq, Structural)]
pub enum Rejection {
    MissingHeader,
    UnreadableHeader,
    /// The header is not of the form `Bearer <token>`.
    MissingToken,
    /// The token is malformed, wrongly signed or expired; which of them is not told.
    InvalidToken,
    AccountNotFound,
    /// An event came that the state does not expect.
    OutOfTurn,
}

impl Rejection {
    /// Whether `error` is the error that tells this rejection to the client.
    pub open spec fn told_by(self, error: AppError) -> bool {
        match self {
            Rejection::MissingHeader => error matches AppError::Forbidden(m) && m@
                == "Please add the JWT token to the header"@,
            Rejection::UnreadableHeader => error matches AppError::Forbidden(m) && m@
                == "Empty header is not allowed"@,
            Rejection::MissingToken => error matches AppError::Forbidden(m) && m@
                == "Missing token"@,
            Rejection::InvalidToken => error == AppError::Unauthorized,
            Rejection::AccountNotFound => error matches AppError::Forbidden(m) && m@
                == "User not found"@,
            Rejection::OutOfTurn => error == AppError::InternalServerError,
        }
    }

    /// The error that tells this rejection to the client: a missing or
    /// unusable header and an unknown account are forbidden, a bad token is
    /// unauthorized.
    pub fn into_error(self) -> (error: AppError)
        ensures
            self.told_by(error),
    {
        match self {
            Rejection::MissingHeader => AppError::Forbidden(
                String::from_str("Please add the JWT token to the header"),
            ),
            Rejection::UnreadableHeader => AppError::Forbidden(
                String::from_str("Empty header is not allowed"),
            ),
            Rejection::MissingToken => AppError::Forbidden(String::from_str("Missing token")),
            Rejection::InvalidToken => AppError::Unauthorized,
            Rejection::AccountNotFound => AppError::Forbidden(String::from_str("User not found")),
            Rejection::OutOfTurn => AppError::InternalServerError,
        }
    }
}

/// Where the authentication of one request stands.
#[derive(Debug, Clone, PartialEq, Eq)]
pub enum AuthState {
    /// Nothing has been looked at yet.
    Start,
    /// The token was accepted; the account of its subject is being looked up.
    ResolveAccount { claims: Claims, id: Uuid },
    /// The request was handed on or turned away.
    Done,
}

/// What the caller reports.
#[derive(Debug, Clone, PartialEq, Eq)]
pub enum AuthEvent {
    /// A request came in, at time `now`.
    Request { authorization: AuthorizationHeader, now: u64 },
    /// The lookup ended: with the record, or with nothing where none was
    /// found or the lookup failed.
    Account { record: Option<Model> },
}

/// What the caller is to do next.
#[derive(Debug, Clone, PartialEq, Eq)]
pub enum AuthAction {
    /// Look up the account with this identifier and report the outcome.
    FindAccount { id: Uuid },
    /// Attach the account to the request and run the handler.
    Continue { account: Model },
    /// Answer with this error; the handler does not run.
    Reject { error: AppError },
}

/// What the header and the token in it lead to: the claim and the
/// identifier of its subject, or the reason to turn the request away.
pub open spec fn admission(authorization: AuthorizationHeader, secret: Seq<char>, now: nat) -> Result<
    (ClaimsView, Uuid),
    Rejection,
> {
    match authorization {
        AuthorizationHeader::Missing => Err(Rejection::MissingHeader),
        AuthorizationHeader::Unreadable => Err(Rejection::UnreadableHeader),
        AuthorizationHeader::Text(text) => match bearer_token(text@) {
            None => Err(Rejection::MissingToken),
            Some(token) => match token_outcome(token, secret, now) {
                Err(_) => Err(Rejection::InvalidToken),
                Ok(claims) => match uuid_parsed(claims.sub) {
                    None => Err(Rejection::AccountNotFound),
                    Some(bits) => Ok((claims, Uuid { bits })),
                },
            },
        },
    }
}

/// What the outcome of the lookup leads to: the account, if it is the one
/// asked for and has not been deleted.
pub open spec fn resolve(id: Uuid, record: Option<Model>) -> Result<Model, Rejection> {
    match record {
        Some(account) => if account.id == id && account.deleted_at is None {
            Ok(account)
        } else {
            Err(Rejection::AccountNotFound)
        },
        None => Err(Rejection::AccountNotFound),
    }
}

/// The step that the state machine takes from `state` on `event`.
pub open spec fn steps_to(
    secret: Seq<char>,
    state: AuthState,
    event: AuthEvent,
    next: AuthState,
    action: AuthAction,
) -> bool {
    match (state, event) {
        (AuthState::Start, AuthEvent::Request { authorization, now }) => match admission(
            authorization,
            secret,
            now as nat,
        ) {
            Ok((claims, id)) => {
                &&& next matches AuthState::ResolveAccount { claims: held, id: wanted }
                &&& held@ == claims
                &&& wanted == id
                &&& action == AuthAction::FindAccount { id }
            },
            Err(why) => {
                &&& next == AuthState::Done
                &&& action matches AuthAction::Reject { error }
                &&& why.told_by(error)
            },
        },
        (AuthState::ResolveAccount { claims, id }, AuthEvent::Account { record }) => match resolve(
            id,
            record,
        ) {
            Ok(account) => next == AuthState::Done && action == AuthAction::Continue { account },
            Err(why) => {
                &&& next == AuthState::Done
                &&& action matches AuthAction::Reject { error }
                &&& why.told_by(error)
            },
        },
        _ => {
            &&& next == AuthState::Done
            &&& action matches AuthAction::Reject { error }
            &&& Rejection::OutOfTurn.told_by(error)
        },
    }
}

/// The name under which a token error is reported.
pub open spec fn token_error_name(e: TokenError) -> Seq<char> {
    match e {
        TokenError::Malformed => "InvalidToken"@,
        TokenError::BadSignature => "InvalidSignature"@,
        TokenError::Expired => "ExpiredSignature"@,
    }
}

/// Verifies a token under `secret` at time `now`. A token that is not
/// accepted is an internal error that carries the name of the failure.
pub fn decode_jwt(jwt_token: &str, secret: &str, now: u64) -> (r: AppResult<Claims>)
    ensures
        match token_outcome(jwt_token@, secret@, now as nat) {
            Ok(claims) => r matches Ok(read) && read@ == claims,
            Err(e) => r matches Err(AppError::InternalServerErrorWithContext(m)) && m@
                == token_error_name(e),
        },
{
    match TokenCodec::new(secret).verify(jwt_token, now) {
        Ok(claims) => Ok(claims),
        Err(TokenError::Malformed) => Err(
            AppError::InternalServerErrorWithContext(String::from_str("InvalidToken")),
        ),
        Err(TokenError::BadSignature) => Err(
            AppError::InternalServerErrorWithContext(String::from_str("InvalidSignature")),
        ),
        Err(TokenError::Expired) => Err(
            AppError::InternalServerErrorWithContext(String::from_str("ExpiredSignature")),
        ),
    }
}

/// Reads the header, verifies the token in it and finds the identifier of
/// its subject.
pub fn admit_request(authorization: &AuthorizationHeader, secret: &str, now: u64) -> (r: Result<
    (Claims, Uuid),
    Rejection,
>)
    ensures
        match admission(*authorization, secret@, now as nat) {
            Ok((claims, id)) => r matches Ok((read, wanted)) && read@ == claims && wanted == id,
            Err(why) => r == Err::<(Claims, Uuid), Rejection>(why),
        },
{
    let text = match authorization {
        AuthorizationHeader::Missing => {
            return Err(Rejection::MissingHeader);
        },
        AuthorizationHeader::Unreadable => {
            return Err(Rejection::UnreadableHeader);
        },
        AuthorizationHeader::Text(text) => text,
    };
    let token = match extract_bearer(text.as_str()) {
        Some(token) => token,
        None => {
            return Err(Rejection::MissingToken);
        },
    };
    let claims = match decode_jwt(token.as_str(), secret, now) {
        Ok(claims) => claims,
        Err(_) => {
            return Err(Rejection::InvalidToken);
        },
    };
    match UserRepository::parse_id(claims.sub.as_str()) {
        Ok(id) => Ok((claims, id)),
        Err(_) => Err(Rejection::AccountNotFound),
    }
}

/// Decides on the outcome of the lookup of account `id`.
pub fn resolve_account(id: Uuid, record: Option<Model>) -> (r: Result<Model, Rejection>)
    ensures
        r == resolve(id, record),
{
    match record {
        Some(account) => {
            if account.id == id && account.deleted_at.is_none() {
                Ok(account)
            } else {
                Err(Rejection::AccountNotFound)
            }
        },
        None => Err(Rejection::AccountNotFound),
    }
}

/// One step of the authentication of a request under `secret`: takes the
/// state and what the caller reports, and gives the next state and what the
/// caller is to do. The handler runs only on `Continue`.
pub fn authentication_middleware(secret: &str, state: AuthState, event: AuthEvent) -> (r: (
    AuthState,
    AuthAction,
))
    ensures
        steps_to(secret@, state, event, r.0, r.1),
{
    match (state, event) {
        (AuthState::Start, AuthEvent::Request { authorization, now }) => {
            match admit_request(&authorization, secret, now) {
                Ok((claims, id)) => (
                    AuthState::ResolveAccount { claims, id },
                    AuthAction::FindAccount { id },
                ),
                Err(why) => (AuthState::Done, AuthAction::Reject { error: why.into_error() }),
            }
        },
        (AuthState::ResolveAccount { claims, id }, AuthEvent::Account { record }) => {
            match resolve_account(id, record) {
                Ok(account) => (AuthState::Done, AuthAction::Continue { account }),
                Err(why) => (AuthState::Done, AuthAction::Reject { error: why.into_error() }),
            }
        },
        _ => (AuthState::Done, AuthAction::Reject { error: Rejection::OutOfTurn.into_error() }),
    }
}

/// What a whole run leads to: the account that is attached to the request,
/// or the reason the request is turned away.
pub open spec fn verdict(
    authorization: AuthorizationHeader,
    secret: Seq<char>,
    now: nat,
    record: Option<Model>,
) -> Result<Model, Rejection> {
    match admission(authorization, secret, now) {
        Ok((claims, id)) => resolve(id, record),
        Err(why) => Err(why),
    }
}

/// An account is attached only where the header holds a token that verifies
/// at the time of the request, the token's subject is the identifier of the
/// account, and the account was found and has not been deleted.
pub proof fn lemma_attached_account_is_authenticated(
    authorization: AuthorizationHeader,
    secret: Seq<char>,
    now: nat,
    record: Option<Model>,
    account: Model,
)
    requires
        verdict(authorization, secret, now, record) == Ok::<Model, Rejection>(account),
    ensures
        authorization matches AuthorizationHeader::Text(text) && bearer_token(text@) matches Some(
            token,
        ) && token_outcome(token, secret, now) matches Ok(claims) && claims.exp > now
            && uuid_parsed(claims.sub) == Some(account.id.bits),
        record == Some(account),
        account.deleted_at is None,
{
}

/// The handler runs only at the end of a run that authenticated the request:
/// two steps from the start that end in `Continue` attach the account of
/// [`verdict`], unchanged.
pub proof fn lemma_continue_follows_the_verdict(
    secret: Seq<char>,
    authorization: AuthorizationHeader,
    now: u64,
    record: Option<Model>,
    waiting: AuthState,
    first: AuthAction,
    done: AuthState,
    second: AuthAction,
)
    requires
        steps_to(
            secret,
            AuthState::Start,
            AuthEvent::Request { authorization, now },
            waiting,
            first,
        ),
        steps_to(secret, waiting, AuthEvent::Account { record }, done, second),
    ensures
        first !is Continue,
        second matches AuthAction::Continue { account } ==> verdict(
            authorization,
            secret,
            now as nat,
            record,
        ) == Ok::<Model, Rejection>(account) && record == Some(account),
        verdict(authorization, secret, now as nat, record) is Err ==> second is Reject,
{
}

/// A request without the header is answered with status 403 and the message
/// that asks for the token, whatever the secret and the time.
pub proof fn lemma_missing_header_is_forbidden(secret: Seq<char>, now: nat, error: AppError)
    requires
        admission(AuthorizationHeader::Missing, secret, now) matches Err(why) && why.told_by(error),
    ensures
        error.response_status() == 403,
        error.response_message() == "Please add the JWT token to the header"@,
        !error.lists_errors(),
{
}

/// A token that does not verify is answered with status 401 and one fixed
/// message, whichever way it failed: an expired token is told no
/// differently from a forged or a malformed one.
pub proof fn lemma_rejected_token_is_unauthorized(
    authorization: AuthorizationHeader,
    token: Seq<char>,
    secret: Seq<char>,
    now: nat,
    error: AppError,
)
    requires
        authorization matches AuthorizationHeader::Text(text) && bearer_token(text@) == Some(token),
        token_outcome(token, secret, now) is Err,
        admission(authorization, secret, now) matches Err(why) && why.told_by(error),
    ensures
        admission(authorization, secret, now) == Err::<(ClaimsView, Uuid), Rejection>(
            Rejection::InvalidToken,
        ),
        error == AppError::Unauthorized,
        error.response_status() == 401,
        error.response_message() == "authentication is required to access this resource"@,
{
}

/// A header that carries a token which reads as a claim in force, and whose
/// subject is an identifier, is let through to the lookup of that account.
pub proof fn lemma_token_in_force_is_let_through(
    authorization: AuthorizationHeader,
    token: Seq<char>,
    secret: Seq<char>,
    now: nat,
    claims: ClaimsView,
    id: Uuid,
)
    requires
        authorization matches AuthorizationHeader::Text(text) && bearer_token(text@) == Some(token),
        token_claims(token, secret) == Ok::<ClaimsView, TokenError>(claims),
        now < claims.exp,
        uuid_parsed(claims.sub) == Some(id.bits),
    ensures
        admission(authorization, secret, now) == Ok::<(ClaimsView, Uuid), Rejection>((claims, id)),
{
}

} // verus!
