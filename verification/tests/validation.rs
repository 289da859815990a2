use geoform_backend::dto::auth::{credential_rules, SignInPayload};
use geoform_backend::dto::user::UserNewDto;
use geoform_backend::extractor::validator::{
    validated, ValidatedJson, ValidatedPath, ValidatedQuery,
};
use geoform_backend::infrastructure::error_map::ErrorMap;
use geoform_backend::infrastructure::errors::{AppError, ErrorBody};
use geoform_backend::validation::{
    check_fields, check_value, describe_params, judge_all, FieldRules, Rule, Validate, Violation,
    ViolationKind,
};

fn s(text: &str) -> String {
    text.to_string()
}

fn sign_in(username: Option<&str>, password: Option<&str>) -> SignInPayload {
    SignInPayload { username: username.map(s), password: password.map(s) }
}

fn error_map(entries: Vec<(&str, Vec<&str>)>) -> ErrorMap {
    ErrorMap {
        entries: entries
            .into_iter()
            .map(|(field, messages)| (s(field), messages.into_iter().map(s).collect()))
            .collect(),
    }
}

#[test]
fn body_with_two_bad_fields_reports_both() {
    let payload = sign_in(Some("not-an-email"), Some("ab"));
    let r = ValidatedJson::from_request(Ok(payload));
    let expected = error_map(vec![
        ("username", vec!["email is invalid"]),
        ("password", vec!["min value is 6"]),
    ]);
    match r {
        Err(AppError::UnprocessableEntity { errors }) => assert_eq!(errors, expected),
        other => panic!("unexpected outcome: {other:?}"),
    }
    let response = AppError::UnprocessableEntity { errors: expected.clone() }.into_response();
    assert_eq!(response.status, 400);
    assert_eq!(response.body, ErrorBody::Errors(expected));
}

#[test]
fn valid_body_comes_out_whole() {
    let payload = sign_in(Some("ada@example.com"), Some("secret1"));
    match ValidatedJson::from_request(Ok(payload.clone())) {
        Ok(ValidatedJson(value)) => assert_eq!(value, payload),
        Err(e) => panic!("unexpected error: {e:?}"),
    }
}

#[test]
fn unparsable_input_is_rejected_with_the_diagnostic() {
    let r = ValidatedJson::<SignInPayload>::from_request(Err(s("expected value at line 1")));
    assert_eq!(r.err(), Some(AppError::AxumJsonRejection(s("expected value at line 1"))));
    let r = ValidatedQuery::<SignInPayload>::from_request_parts(Err(s("bad query")));
    assert_eq!(r.err(), Some(AppError::AxumQueryRejection(s("bad query"))));
    let r = ValidatedPath::<SignInPayload>::from_request_parts(Err(s("bad path")));
    assert_eq!(r.err(), Some(AppError::AxumPathRejection(s("bad path"))));
}

#[test]
fn query_and_path_validate_like_the_body() {
    let bad = UserNewDto { username: None, password: Some(s("12345")) };
    let expected = error_map(vec![
        ("username", vec!["username is required"]),
        ("password", vec!["min value is 6"]),
    ]);
    match ValidatedQuery::from_request_parts(Ok(bad.clone())) {
        Err(AppError::UnprocessableEntity { errors }) => assert_eq!(errors, expected),
        other => panic!("unexpected outcome: {other:?}"),
    }
    match ValidatedPath::from_request_parts(Ok(bad)) {
        Err(AppError::UnprocessableEntity { errors }) => assert_eq!(errors, expected),
        other => panic!("unexpected outcome: {other:?}"),
    }
    let good = UserNewDto { username: Some(s("a@b.co")), password: Some(s("123456")) };
    match ValidatedQuery::from_request_parts(Ok(good.clone())) {
        Ok(ValidatedQuery(value)) => assert_eq!(value, good),
        Err(e) => panic!("unexpected error: {e:?}"),
    }
    match ValidatedPath::from_request_parts(Ok(good.clone())) {
        Ok(ValidatedPath(value)) => assert_eq!(value, good),
        Err(e) => panic!("unexpected error: {e:?}"),
    }
    assert_eq!(validated(good.clone()).ok(), Some(good));
}

#[test]
fn missing_fields_are_required() {
    let found = sign_in(None, None).validate().unwrap_err();
    assert_eq!(found.fields.len(), 2);
    assert_eq!(found.fields[0].field, "username");
    assert_eq!(found.fields[1].field, "password");
    let expected = Violation {
        code: s("required"),
        message: None,
        params: vec![(s("value"), s("null"))],
    };
    assert_eq!(found.fields[0].kind, ViolationKind::Field(vec![expected.clone()]));
    assert_eq!(found.fields[1].kind, ViolationKind::Field(vec![expected]));
}

#[test]
fn empty_username_breaks_two_rules() {
    let found = sign_in(Some(""), Some("long enough")).validate().unwrap_err();
    assert_eq!(found.fields.len(), 1);
    let expected = vec![
        Violation {
            code: s("length"),
            message: None,
            params: vec![(s("min"), s("1")), (s("value"), s("\"\""))],
        },
        Violation {
            code: s("email"),
            message: Some(s("email is invalid")),
            params: vec![(s("value"), s("\"\""))],
        },
    ];
    assert_eq!(found.fields[0].kind, ViolationKind::Field(expected));
}

#[test]
fn password_length_counts_characters() {
    assert!(sign_in(Some("a@b.co"), Some("123456")).validate().is_ok());
    assert!(sign_in(Some("a@b.co"), Some("12345")).validate().is_err());
    assert!(sign_in(Some("a@b.co"), Some("äöüßéè")).validate().is_ok());
    assert!(sign_in(Some("a@b.co"), Some("äöüßé")).validate().is_err());
}

#[test]
fn email_is_judged_by_the_html5_rules() {
    for good in ["ada@example.com", "a.b+c@sub.example.org", "x@[127.0.0.1]"] {
        assert!(sign_in(Some(good), Some("123456")).validate().is_ok(), "{good}");
    }
    for bad in ["not-an-email", "a@", "@b.co", "a b@c.de", "a@b..co"] {
        assert!(sign_in(Some(bad), Some("123456")).validate().is_err(), "{bad}");
    }
}

#[test]
fn offending_value_is_reported_as_json_text() {
    let found = sign_in(Some("a\"b"), Some("123456")).validate().unwrap_err();
    let expected = vec![Violation {
        code: s("email"),
        message: Some(s("email is invalid")),
        params: vec![(s("value"), s("\"a\\\"b\""))],
    }];
    assert_eq!(found.fields[0].kind, ViolationKind::Field(expected));
}

#[test]
fn rules_are_judged_on_given_results() {
    let rules = vec![
        Rule::Required { message: Some(s("needed")) },
        Rule::Length { min: Some(2), max: Some(3), message: None },
        Rule::Email { message: None },
    ];
    assert!(judge_all(&rules, &Some(s("abc")), true, "\"abc\"").is_empty());
    let found = judge_all(&rules, &Some(s("abcd")), false, "\"abcd\"");
    assert_eq!(
        found,
        vec![
            Violation {
                code: s("length"),
                message: None,
                params: vec![(s("min"), s("2")), (s("max"), s("3")), (s("value"), s("\"abcd\""))],
            },
            Violation {
                code: s("email"),
                message: None,
                params: vec![(s("value"), s("\"abcd\""))],
            },
        ]
    );
    let found = judge_all(&rules, &None, false, "null");
    assert_eq!(
        found,
        vec![Violation {
            code: s("required"),
            message: Some(s("needed")),
            params: vec![(s("value"), s("null"))],
        }]
    );
    assert_eq!(rules[1].judge(&Some(s("a")), true, "\"a\"").map(|v| v.code), Some(s("length")));
    assert_eq!(rules[1].judge(&Some(s("ab")), true, "\"ab\""), None);
    assert_eq!(rules[2].judge(&None, false, "null"), None);
}

#[test]
fn check_value_asks_the_outside_checks() {
    let rules = vec![Rule::Email { message: None }];
    assert!(check_value(&rules, &Some(s("ada@example.com"))).is_empty());
    assert_eq!(check_value(&rules, &Some(s("ada"))).len(), 1);
    assert!(check_value(&rules, &None).is_empty());
}

#[test]
fn fields_beyond_the_values_count_as_absent() {
    let schema = vec![
        FieldRules { field: s("a"), rules: vec![Rule::Required { message: None }] },
        FieldRules { field: s("b"), rules: vec![Rule::Required { message: None }] },
    ];
    let found = check_fields(&schema, &vec![Some(s("x"))]).unwrap_err();
    assert_eq!(found.fields.len(), 1);
    assert_eq!(found.fields[0].field, "b");
    assert!(check_fields(&schema, &vec![Some(s("x")), Some(s("y"))]).is_ok());
}

#[test]
fn credential_rules_as_data() {
    let schema = credential_rules();
    assert_eq!(schema.len(), 2);
    assert_eq!(schema[0].field, "username");
    assert_eq!(
        schema[0].rules,
        vec![
            Rule::Required { message: None },
            Rule::Length { min: Some(1), max: None, message: None },
            Rule::Email { message: Some(s("email is invalid")) },
        ]
    );
    assert_eq!(schema[1].field, "password");
    assert_eq!(
        schema[1].rules,
        vec![
            Rule::Required { message: None },
            Rule::Length { min: Some(6), max: None, message: None },
        ]
    );
}

#[test]
fn params_are_described_without_the_value() {
    let params = vec![(s("value"), s("1")), (s("min"), s("2")), (s("equal"), s("3"))];
    assert_eq!(describe_params(&params), vec![s("min value is 2"), s("equal value is 3")]);
    assert!(describe_params(&vec![(s("value"), s("x"))]).is_empty());
}
