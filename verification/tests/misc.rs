use geoform_backend::dto::auth::OAuth2Response;
use geoform_backend::dto::base::{BaseResponse, ErrorDetails};
use geoform_backend::dto::user::{UserNewDto, UserReadResponse};
use geoform_backend::entity::user_account::{DateTimeWithTimeZone, Model};
use geoform_backend::hasher::verify;
use geoform_backend::infrastructure::config::{CargoEnv, Config, ConfigUnparsed};
use geoform_backend::infrastructure::error_map::ErrorMap;
use geoform_backend::infrastructure::errors::{AppError, ErrorBody, ErrorResponse, HttpError};
use geoform_backend::infrastructure::uuid::{generate_uuid, Uuid};
use geoform_backend::logger::Logger;
use geoform_backend::repository::user::UserRepository;
use geoform_backend::route::AppRoute;
use geoform_backend::server::AppServer;
use geoform_backend::text::{chars_of, decimal_text, join_text};

fn s(text: &str) -> String {
    text.to_string()
}

#[test]
fn base_response_success_has_only_data() {
    let r = BaseResponse::success(5u8);
    assert_eq!(r, BaseResponse { data: Some(5u8), error: None });
}

#[test]
fn base_response_error_has_only_the_error() {
    let r = BaseResponse::<()>::error(s("nope"), Some(404));
    let details = ErrorDetails { message: s("nope"), code: Some(404) };
    assert_eq!(r, BaseResponse { data: None, error: Some(details) });
    assert_eq!(BaseResponse::<u8>::error(s("x"), None).error.unwrap().code, None);
}

#[test]
fn generated_identifiers_are_version_seven_and_differ() {
    let a = generate_uuid();
    let b = generate_uuid();
    assert_eq!(a.version(), 7);
    assert_eq!((a.bits >> 62) & 3, 2);
    assert_ne!(a, b);
    assert_eq!(uuid::Uuid::from_u128(a.bits).get_version_num(), 7);
}

#[test]
fn identifiers_are_read_and_written() {
    let id = Uuid::parse_str("550e8400-e29b-41d4-a716-446655440000").unwrap();
    assert_eq!(id.bits, 0x550e8400_e29b_41d4_a716_446655440000);
    assert_eq!(id.version(), 4);
    assert_eq!(id.to_string(), "550e8400-e29b-41d4-a716-446655440000");
    assert_eq!(Uuid::parse_str("550E8400E29B41D4A716446655440000"), Ok(id));
    assert!(Uuid::parse_str("550e8400").is_err());
    assert!(Uuid::parse_str("").is_err());
    let fresh = generate_uuid();
    assert_eq!(Uuid::parse_str(&fresh.to_string()), Ok(fresh));
}

#[test]
fn repository_reads_identifiers() {
    assert_eq!(
        UserRepository::parse_id("550e8400-e29b-41d4-a716-446655440000"),
        Ok(Uuid { bits: 0x550e8400_e29b_41d4_a716_446655440000 })
    );
    match UserRepository::parse_id("nobody") {
        Err(AppError::UuidParseError(complaint)) => assert!(!complaint.is_empty()),
        other => panic!("unexpected outcome: {other:?}"),
    }
}

fn account() -> Model {
    Model {
        id: Uuid { bits: 7 },
        username: s("ada@example.com"),
        password: s("hash"),
        created_at: DateTimeWithTimeZone { timestamp: 1_600_000_000, nanos: 5, offset: 3600 },
        deleted_at: None,
    }
}

#[test]
fn repository_requires_a_record() {
    assert_eq!(UserRepository::require_found(Some(account())), Ok(account()));
    assert_eq!(
        UserRepository::require_found(None),
        Err(AppError::BadRequest(s("user not found")))
    );
}

#[test]
fn new_account_holds_the_hash_of_the_password() {
    let dto = UserNewDto { username: Some(s("ada@example.com")), password: Some(s("s3cret!")) };
    let record = UserRepository::create(&dto).unwrap();
    assert_eq!(record.username, "ada@example.com");
    assert_eq!(record.id.version(), 7);
    assert!(verify("s3cret!", &record.password));
    assert!(!verify("ada@example.com", &record.password));
    let other = UserRepository::create(&dto).unwrap();
    assert_ne!(other.id, record.id);
    assert_ne!(other.password, record.password);
}

#[test]
fn new_account_needs_username_and_password() {
    let dto = UserNewDto { username: None, password: Some(s("s3cret!")) };
    assert_eq!(UserRepository::create(&dto), Err(AppError::InternalServerError));
    let dto = UserNewDto { username: Some(s("a@b.co")), password: None };
    assert_eq!(UserRepository::create(&dto), Err(AppError::InternalServerError));
}

#[test]
fn read_response_shows_name_and_creation_time() {
    let r = UserReadResponse::from_model(account()).unwrap();
    assert_eq!(r.username, "ada@example.com");
    assert_eq!(
        r.created_at,
        DateTimeWithTimeZone { timestamp: 1_600_000_000, nanos: 5, offset: 3600 }
    );
}

#[test]
fn bearer_response() {
    let r = OAuth2Response::new_bearer(s("tok"), 3600);
    assert_eq!(
        r,
        OAuth2Response { token_type: s("Bearer"), access_token: s("tok"), expires_in: 3600 }
    );
}

fn unparsed() -> ConfigUnparsed {
    ConfigUnparsed {
        port: None,
        database_url: s("postgres://db"),
        timeout: None,
        jwt_expire: None,
        jwt_secret: s("k"),
        host: None,
    }
}

#[test]
fn config_defaults() {
    let config = unparsed().to_config(None);
    let expected = Config {
        port: s("8080"),
        database_url: s("postgres://db"),
        cargo_env: CargoEnv::Development,
        timeout: 30,
        jwt_expire: 3600,
        jwt_secret: s("k"),
        host: None,
    };
    assert_eq!(config, expected);
}

#[test]
fn config_keeps_what_is_set() {
    let file = ConfigUnparsed {
        port: Some(s("9000")),
        database_url: s("postgres://db"),
        timeout: Some(5),
        jwt_expire: Some(-1),
        jwt_secret: s("k"),
        host: Some(s("example.org")),
    };
    let config = file.to_config(Some(CargoEnv::Production));
    let expected = Config {
        port: s("9000"),
        database_url: s("postgres://db"),
        cargo_env: CargoEnv::Production,
        timeout: 5,
        jwt_expire: -1,
        jwt_secret: s("k"),
        host: Some(s("example.org")),
    };
    assert_eq!(config, expected);
}

#[test]
fn connection_options_follow_threads_and_environment() {
    let options = unparsed().to_config(None).get_connection_options(8);
    assert_eq!(options.url, "postgres://db");
    assert_eq!(options.max_connections, 16);
    assert!(options.sqlx_logging);
    let options = unparsed().to_config(Some(CargoEnv::Production)).get_connection_options(1);
    assert_eq!(options.max_connections, 2);
    assert!(!options.sqlx_logging);
    let config = unparsed().to_config(None);
    assert_eq!(config.get_connection_options(0).max_connections, 0);
    assert_eq!(config.get_connection_options(2_147_483_647).max_connections, 4_294_967_294);
    assert_eq!(config.get_connection_options(2_147_483_648).max_connections, u32::MAX);
    assert_eq!(config.get_connection_options(usize::MAX).max_connections, u32::MAX);
}

#[test]
fn unknown_route_is_not_found() {
    let r = AppRoute::handle_404();
    let expected = ErrorMap {
        entries: vec![(
            s("message"),
            vec![s("The requested resource does not exist on this server!")],
        )],
    };
    assert_eq!(r, ErrorResponse { status: 404, body: ErrorBody::Errors(expected) });
}

#[test]
fn timeout_and_other_failures_of_the_layers() {
    let r = AppRoute::handle_timeout_error(true, "deadline has elapsed");
    let message = "request took longer than the configured 30 second timeout";
    assert_eq!(r, ErrorResponse { status: 408, body: ErrorBody::Error(HttpError::new(s(message))) });
    let r = AppRoute::handle_timeout_error(false, "buffer full");
    let message = "unhandled internal error: buffer full";
    assert_eq!(r, ErrorResponse { status: 500, body: ErrorBody::Error(HttpError::new(s(message))) });
}

#[test]
fn server_listens_on_every_interface() {
    assert_eq!(AppServer::address("8080"), "0.0.0.0:8080");
}

#[test]
fn logger_falls_back_to_debug() {
    assert_eq!(Logger::directives(None), "geoform_backend=debug,tower_http=debug");
    assert_eq!(Logger::directives(Some(s("info"))), "info");
}

#[test]
fn decimal_numerals() {
    assert_eq!(decimal_text(0), "0");
    assert_eq!(decimal_text(9), "9");
    assert_eq!(decimal_text(10), "10");
    assert_eq!(decimal_text(1_700_003_600), "1700003600");
    assert_eq!(decimal_text(u64::MAX), "18446744073709551615");
}

#[test]
fn joined_texts() {
    assert_eq!(join_text(&vec![], ", "), "");
    assert_eq!(join_text(&vec![s("a")], ", "), "a");
    assert_eq!(join_text(&vec![s("a"), s(""), s("c")], ", "), "a, , c");
}

#[test]
fn characters_of_a_text() {
    assert_eq!(chars_of("aé😀"), vec!['a', 'é', '😀']);
    assert!(chars_of("").is_empty());
}
