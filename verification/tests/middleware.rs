use geoform_backend::dto::auth::Claims;
use geoform_backend::entity::user_account::{DateTimeWithTimeZone, Model};
use geoform_backend::infrastructure::errors::{AppError, ErrorBody, ErrorResponse, HttpError};
use geoform_backend::infrastructure::uuid::Uuid;
use geoform_backend::middleware::auth::{
    admit_request, authentication_middleware, extract_bearer, is_space, resolve_account,
    AuthAction, AuthEvent, AuthState, AuthorizationHeader, Rejection,
};
use geoform_backend::token::TokenCodec;

const SECRET: &str = "top secret";
const SUBJECT: &str = "0195f3a0-7c1e-7b3a-8f00-1234567890ab";
const SUBJECT_BITS: u128 = 0x0195f3a0_7c1e_7b3a_8f00_1234567890ab;

fn moment(timestamp: i64) -> DateTimeWithTimeZone {
    DateTimeWithTimeZone { timestamp, nanos: 0, offset: 0 }
}

fn account() -> Model {
    Model {
        id: Uuid { bits: SUBJECT_BITS },
        username: "ada@example.com".to_string(),
        password: "$argon2id$...".to_string(),
        created_at: moment(1_600_000_000),
        deleted_at: None,
    }
}

fn bearer(token: &str) -> AuthorizationHeader {
    AuthorizationHeader::Text(format!("Bearer {token}"))
}

fn request(authorization: AuthorizationHeader, now: u64) -> (AuthState, AuthAction) {
    authentication_middleware(SECRET, AuthState::Start, AuthEvent::Request { authorization, now })
}

fn forbidden(message: &str) -> (AuthState, AuthAction) {
    (AuthState::Done, AuthAction::Reject { error: AppError::Forbidden(message.to_string()) })
}

fn unauthorized() -> (AuthState, AuthAction) {
    (AuthState::Done, AuthAction::Reject { error: AppError::Unauthorized })
}

fn answer(step: (AuthState, AuthAction)) -> ErrorResponse {
    match step.1 {
        AuthAction::Reject { error } => error.into_response(),
        other => panic!("not rejected: {other:?}"),
    }
}

fn told(status: u16, message: &str) -> ErrorResponse {
    ErrorResponse { status, body: ErrorBody::Error(HttpError::new(message.to_string())) }
}

#[test]
fn request_without_header_is_forbidden() {
    let step = request(AuthorizationHeader::Missing, 100);
    assert_eq!(step, forbidden("Please add the JWT token to the header"));
    let response = answer(step);
    assert_eq!(response, told(403, "Please add the JWT token to the header"));
    assert_eq!(response.body.key(), "error");
}

#[test]
fn unreadable_header_is_forbidden() {
    let step = request(AuthorizationHeader::Unreadable, 100);
    assert_eq!(step, forbidden("Empty header is not allowed"));
    assert_eq!(answer(step).status, 403);
}

#[test]
fn header_without_token_is_forbidden() {
    for text in ["", "Bearer", "   ", "Bearer   ", "\tBearer\t"] {
        let step = request(AuthorizationHeader::Text(text.to_string()), 100);
        assert_eq!(step, forbidden("Missing token"), "{text:?}");
    }
}

#[test]
fn expired_token_is_unauthorized_without_detail() {
    let token = TokenCodec::new(SECRET).mint(SUBJECT, 1000, 60).unwrap();
    let step = request(bearer(&token), 1060);
    assert_eq!(step, unauthorized());
    let expired = answer(step);
    assert_eq!(expired, told(401, "authentication is required to access this resource"));
    let forged = answer(request(bearer(&format!("{token}x")), 1000));
    let garbled = answer(request(bearer("garbled"), 1000));
    assert_eq!(expired, forged);
    assert_eq!(expired, garbled);
}

#[test]
fn token_of_another_secret_is_unauthorized() {
    let token = TokenCodec::new("another").mint(SUBJECT, 1000, 60).unwrap();
    assert_eq!(request(bearer(&token), 1000), unauthorized());
}

#[test]
fn accepted_token_asks_for_the_account() {
    let token = TokenCodec::new(SECRET).mint(SUBJECT, 1000, 60).unwrap();
    let (state, action) = request(bearer(&token), 1059);
    let id = Uuid { bits: SUBJECT_BITS };
    assert_eq!(action, AuthAction::FindAccount { id });
    let claims = Claims { exp: 1060, iat: 1000, sub: SUBJECT.to_string() };
    assert_eq!(state, AuthState::ResolveAccount { claims, id });
}

#[test]
fn found_account_is_attached_unchanged() {
    let token = TokenCodec::new(SECRET).mint(SUBJECT, 1000, 60).unwrap();
    let (state, _) = request(bearer(&token), 1000);
    let event = AuthEvent::Account { record: Some(account()) };
    let step = authentication_middleware(SECRET, state, event);
    assert_eq!(step, (AuthState::Done, AuthAction::Continue { account: account() }));
}

#[test]
fn unknown_account_is_forbidden() {
    let token = TokenCodec::new(SECRET).mint(SUBJECT, 1000, 60).unwrap();
    let (state, _) = request(bearer(&token), 1000);
    let step = authentication_middleware(SECRET, state, AuthEvent::Account { record: None });
    assert_eq!(step, forbidden("User not found"));
    assert_eq!(answer(step), told(403, "User not found"));
}

#[test]
fn deleted_or_other_account_is_forbidden() {
    let id = Uuid { bits: SUBJECT_BITS };
    let mut deleted = account();
    deleted.deleted_at = Some(moment(1_650_000_000));
    assert_eq!(resolve_account(id, Some(deleted)), Err(Rejection::AccountNotFound));
    let mut other = account();
    other.id = Uuid { bits: SUBJECT_BITS + 1 };
    assert_eq!(resolve_account(id, Some(other)), Err(Rejection::AccountNotFound));
    assert_eq!(resolve_account(id, Some(account())), Ok(account()));
    assert_eq!(resolve_account(id, None), Err(Rejection::AccountNotFound));
}

#[test]
fn subject_that_is_no_identifier_is_forbidden() {
    let token = TokenCodec::new(SECRET).mint("ada", 1000, 60).unwrap();
    assert_eq!(request(bearer(&token), 1000), forbidden("User not found"));
}

#[test]
fn events_out_of_turn_are_turned_away() {
    let out_of_turn =
        (AuthState::Done, AuthAction::Reject { error: AppError::InternalServerError });
    let step = authentication_middleware(
        SECRET,
        AuthState::Start,
        AuthEvent::Account { record: Some(account()) },
    );
    assert_eq!(step, out_of_turn);
    let event = AuthEvent::Request { authorization: AuthorizationHeader::Missing, now: 1 };
    assert_eq!(authentication_middleware(SECRET, AuthState::Done, event), out_of_turn);
    let waiting = AuthState::ResolveAccount {
        claims: Claims { exp: 2, iat: 1, sub: SUBJECT.to_string() },
        id: Uuid { bits: SUBJECT_BITS },
    };
    let event = AuthEvent::Request { authorization: AuthorizationHeader::Missing, now: 1 };
    assert_eq!(authentication_middleware(SECRET, waiting, event), out_of_turn);
}

#[test]
fn scheme_word_must_be_bearer() {
    let token = TokenCodec::new(SECRET).mint(SUBJECT, 1000, 60).unwrap();
    for scheme in ["Basic", "Token", "bearer", "BEARER", "Bearer:", "Bearerx", "earer"] {
        let header = AuthorizationHeader::Text(format!("{scheme} {token}"));
        assert_eq!(request(header, 1000), forbidden("Missing token"), "{scheme}");
    }
    let header = AuthorizationHeader::Text(token.clone());
    assert_eq!(request(header, 1000), forbidden("Missing token"));
    let header = AuthorizationHeader::Text(format!("{token} Bearer"));
    assert_eq!(request(header, 1000), forbidden("Missing token"));
    let header = AuthorizationHeader::Text(format!("  Bearer \t {token}  trailing"));
    let (_, action) = request(header, 1000);
    assert_eq!(action, AuthAction::FindAccount { id: Uuid { bits: SUBJECT_BITS } });
}

#[test]
fn bearer_is_the_word_after_the_scheme() {
    assert_eq!(extract_bearer("Bearer abc"), Some("abc".to_string()));
    assert_eq!(extract_bearer("  Bearer \t abc.def  ghi"), Some("abc.def".to_string()));
    assert_eq!(extract_bearer("Bearer\u{3000}b\u{a0}c"), Some("b".to_string()));
    assert_eq!(extract_bearer("Bearer ü"), Some("ü".to_string()));
    assert_eq!(extract_bearer("a\u{3000}b\u{a0}c"), None);
    assert_eq!(extract_bearer("Basic abc"), None);
    assert_eq!(extract_bearer("bearer abc"), None);
    assert_eq!(extract_bearer("Bearer"), None);
    assert_eq!(extract_bearer("Bearerabc"), None);
    assert_eq!(extract_bearer(""), None);
    assert_eq!(extract_bearer(" \n "), None);
}

#[test]
fn bearer_agrees_with_the_words_of_the_text() {
    for text in [
        "Bearer b",
        " Bearer  b c",
        "Bearer",
        "Bearer\ty\nz",
        "\u{2003}Bearer\u{2028}q",
        "Bearer a\u{200b}b c",
        "Bearer\u{200b} a",
        "x y",
    ] {
        let mut words = text.split_whitespace();
        let expected = match (words.next(), words.next()) {
            (Some("Bearer"), Some(token)) => Some(token.to_string()),
            _ => None,
        };
        assert_eq!(extract_bearer(text), expected, "{text:?}");
    }
}

#[test]
fn white_space_is_the_unicode_property() {
    for code in 0..=0x3100u32 {
        if let Some(c) = char::from_u32(code) {
            assert_eq!(is_space(c), c.is_whitespace(), "{code:#x}");
        }
    }
    assert!(!is_space('\u{feff}'));
    assert!(!is_space('\u{10ffff}'));
}

#[test]
fn admit_request_gives_claim_and_identifier() {
    let token = TokenCodec::new(SECRET).mint(SUBJECT, 1000, 60).unwrap();
    let claims = Claims { exp: 1060, iat: 1000, sub: SUBJECT.to_string() };
    assert_eq!(
        admit_request(&bearer(&token), SECRET, 1000),
        Ok((claims, Uuid { bits: SUBJECT_BITS }))
    );
    assert_eq!(admit_request(&bearer(&token), SECRET, 1060), Err(Rejection::InvalidToken));
    assert_eq!(
        admit_request(&AuthorizationHeader::Missing, SECRET, 0),
        Err(Rejection::MissingHeader)
    );
}

#[test]
fn rejections_and_their_errors() {
    let forbidden = |m: &str| AppError::Forbidden(m.to_string());
    assert_eq!(
        Rejection::MissingHeader.into_error(),
        forbidden("Please add the JWT token to the header")
    );
    assert_eq!(Rejection::UnreadableHeader.into_error(), forbidden("Empty header is not allowed"));
    assert_eq!(Rejection::MissingToken.into_error(), forbidden("Missing token"));
    assert_eq!(Rejection::InvalidToken.into_error(), AppError::Unauthorized);
    assert_eq!(Rejection::AccountNotFound.into_error(), forbidden("User not found"));
    assert_eq!(Rejection::OutOfTurn.into_error(), AppError::InternalServerError);
}
