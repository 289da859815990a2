use geoform_backend::infrastructure::error_map::ErrorMap;
use geoform_backend::infrastructure::errors::{
    AppError, ErrorBody, ErrorResponse, HttpError, ValidationMessageError,
    ValidationMessageErrors,
};
use geoform_backend::validation::{FieldViolations, Violation, ViolationKind, Violations};

fn s(text: &str) -> String {
    text.to_string()
}

fn told(status: u16, message: &str) -> ErrorResponse {
    ErrorResponse { status, body: ErrorBody::Error(HttpError::new(s(message))) }
}

fn violation(code: &str, message: Option<&str>, params: Vec<(&str, &str)>) -> Violation {
    Violation {
        code: s(code),
        message: message.map(s),
        params: params.into_iter().map(|(k, v)| (s(k), s(v))).collect(),
    }
}

#[test]
fn http_error_new_keeps_the_message() {
    assert_eq!(HttpError::new(s("boom")).error, "boom");
}

#[test]
fn validation_message_errors_from_keeps_the_list() {
    let list = vec![ValidationMessageError { field: s("a"), message: s("b") }];
    assert_eq!(ValidationMessageErrors::from(list.clone()).errors, list);
}

#[test]
fn validation_message_error_as_text() {
    let e = ValidationMessageError { field: s("age"), message: s("too young") };
    assert_eq!(e.to_string(), "Field age : too young");
}

#[test]
fn validation_message_errors_as_text_counts() {
    let list: Vec<ValidationMessageError> = (0..12)
        .map(|i| ValidationMessageError { field: format!("f{i}"), message: s("m") })
        .collect();
    assert_eq!(ValidationMessageErrors::from(list).to_string(), "Field error: 12");
    assert_eq!(ValidationMessageErrors::from(vec![]).to_string(), "Field error: 0");
}

#[test]
fn statuses_of_the_taxonomy() {
    assert_eq!(AppError::BadRequest(s("bad")).into_response(), told(400, "bad"));
    assert_eq!(
        AppError::Unauthorized.into_response(),
        told(401, "authentication is required to access this resource")
    );
    assert_eq!(AppError::Forbidden(s("no")).into_response(), told(403, "no"));
    assert_eq!(AppError::NotFound(s("gone")).into_response(), told(404, "gone"));
    assert_eq!(AppError::Conflict(s("twice")).into_response(), told(409, "twice"));
    assert_eq!(AppError::PreconditionFailed(s("pre")).into_response(), told(412, "pre"));
    assert_eq!(
        AppError::InternalServerErrorWithContext(s("ctx")).into_response(),
        told(500, "ctx")
    );
    assert_eq!(
        AppError::InternalServerError.into_response(),
        told(500, "unexpected error has occurred")
    );
}

#[test]
fn rejections_of_the_parsers_are_bad_requests() {
    assert_eq!(AppError::AxumJsonRejection(s("j")).into_response(), told(400, "j"));
    assert_eq!(AppError::AxumQueryRejection(s("q")).into_response(), told(400, "q"));
    assert_eq!(AppError::AxumPathRejection(s("p")).into_response(), told(400, "p"));
}

#[test]
fn domain_failures_have_fixed_messages() {
    assert_eq!(
        AppError::ParticipantAlreadyExists.into_response(),
        told(400, "Participant already exists")
    );
    assert_eq!(
        AppError::ParticipantQuotaExceeded.into_response(),
        told(400, "Participant quota exceeded")
    );
    assert_eq!(
        AppError::ProjectVersionIdMismatch.into_response(),
        told(400, "Mismatch project version id")
    );
    assert_eq!(
        AppError::FailedParsingVariable.into_response(),
        told(400, "Failed to parse variable")
    );
}

#[test]
fn collaborator_failures_become_internal_errors() {
    assert_eq!(AppError::DbError(s("db down")).into_response(), told(500, "db down"));
    assert_eq!(AppError::UuidParseError(s("bad id")).into_response(), told(500, "bad id"));
    let generic = told(500, "unexpected error has occurred");
    assert_eq!(AppError::SerdeJsonError(s("x")).into_response(), generic);
    assert_eq!(AppError::AnyhowError(s("x")).into_response(), generic);
    assert_eq!(AppError::ConfigError(s("x")).into_response(), generic);
    assert_eq!(AppError::TransactionError(s("x")).into_response(), generic);
    assert_eq!(AppError::DecodeError(s("x")).into_response(), generic);
    assert_eq!(AppError::SqlxDbError(s("x")).into_response(), generic);
    assert_eq!(
        AppError::ValidationError(violation("length", None, vec![])).into_response(),
        generic
    );
}

#[test]
fn field_messages_are_answered_as_a_list() {
    let a = ValidationMessageError { field: s("a"), message: s("first") };
    let b = ValidationMessageError { field: s("b"), message: s("second") };
    let r = AppError::ValidationMessageErrors(ValidationMessageErrors::from(vec![
        a.clone(),
        b.clone(),
    ]))
    .into_response();
    assert_eq!(r.status, 400);
    assert_eq!(r.body, ErrorBody::FieldErrors(vec![a.clone(), b]));
    assert_eq!(r.body.key(), "errors");
    let r = AppError::ValidationMessageError(a.clone()).into_response();
    assert_eq!(r, ErrorResponse { status: 400, body: ErrorBody::FieldErrors(vec![a]) });
}

#[test]
fn a_body_has_one_top_level_key() {
    assert_eq!(AppError::Unauthorized.into_response().body.key(), "error");
    let r = AppError::UnprocessableEntity { errors: ErrorMap::new() }.into_response();
    assert_eq!(r.status, 400);
    assert_eq!(r.body.key(), "errors");
    assert_eq!(r.body, ErrorBody::Errors(ErrorMap::new()));
}

#[test]
fn message_of_a_violation() {
    let with_message = violation("email", Some("email is invalid"), vec![("value", "\"x\"")]);
    assert_eq!(with_message.message_for("username"), "email is invalid");
    let with_params = violation("length", None, vec![("min", "6"), ("value", "\"ab\"")]);
    assert_eq!(with_params.message_for("password"), "min value is 6");
    let two_params =
        violation("length", None, vec![("min", "2"), ("value", "\"a\""), ("max", "4")]);
    assert_eq!(two_params.message_for("code"), "min value is 2, max value is 4");
    let bare = violation("required", None, vec![("value", "null")]);
    assert_eq!(bare.message_for("password"), "password is required");
    let empty = violation("required", None, vec![]);
    assert_eq!(empty.message_for("name"), "name is required");
}

#[test]
fn unprocessable_entity_collects_every_violation() {
    let found = Violations {
        fields: vec![
            FieldViolations {
                field: s("username"),
                kind: ViolationKind::Field(vec![
                    violation("length", None, vec![("min", "1"), ("value", "\"\"")]),
                    violation("email", Some("email is invalid"), vec![("value", "\"\"")]),
                ]),
            },
            FieldViolations { field: s("address"), kind: ViolationKind::Nested },
            FieldViolations {
                field: s("password"),
                kind: ViolationKind::Field(vec![violation(
                    "required",
                    None,
                    vec![("value", "null")],
                )]),
            },
            FieldViolations {
                field: s("username"),
                kind: ViolationKind::Field(vec![violation("custom", Some("taken"), vec![])]),
            },
            FieldViolations { field: s("empty"), kind: ViolationKind::Field(vec![]) },
        ],
    };
    let r = AppError::unprocessable_entity(found.clone());
    assert_eq!(r.status, 400);
    let expected = ErrorMap {
        entries: vec![
            (s("username"), vec![s("min value is 1"), s("email is invalid"), s("taken")]),
            (s("password"), vec![s("password is required")]),
        ],
    };
    assert_eq!(r.body, ErrorBody::Errors(expected));
    assert_eq!(AppError::ValidationErrors(found).into_response(), r);
}

#[test]
fn error_map_keeps_fields_apart_and_in_order() {
    let mut m = ErrorMap::new();
    assert_eq!(m.len(), 0);
    m.insert("b", s("one"));
    m.insert("a", s("two"));
    m.insert("b", s("three"));
    assert_eq!(m.len(), 2);
    assert_eq!(m.position("b"), Some(0));
    assert_eq!(m.position("a"), Some(1));
    assert_eq!(m.position("c"), None);
    assert_eq!(m.get("b"), vec![s("one"), s("three")]);
    assert_eq!(m.get("a"), vec![s("two")]);
    assert!(m.get("c").is_empty());
}
