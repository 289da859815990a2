use crate::validation::{
    check_fields, schema_views, schema_violations, FieldRules, FieldRulesView,
    FieldViolationsView, Rule, RuleView, Validate, Violations,
};
use crate::infrastructure::error_map::messages_of;
use crate::infrastructure::errors::{collected, error_map_of, lemma_error_map_is_complete, messages};
use crate::validation::{email_ok_of, opt_text, rules_violations, value_text_of, ViolationView};
use vstd::prelude::*;

verus! {

/// What a client sends to sign in.
#[derive(Debug, Clone, PartialEq, Eq, Default)]
pub struct SignInPayload {
    pub username: Option<String>,
    pub password: Option<String>,
}

/// The identity claim carried by a token.
#[derive(Debug, Clone, PartialEq, Eq)]
pub struct Claims {
    /// Expiry time, in seconds since the epoch.
    pub exp: usize,
    /// Time of issue, in seconds since the epoch.
    pub iat: usize,
    /// The account's identifier.
    pub sub: String,
}

/// Mathematical model of [`Claims`].
pub struct ClaimsView {
    pub exp: nat,
    pub iat: nat,
    pub sub: Seq<char>,
}

impl View for Claims {
    type V = ClaimsView;

    open spec fn view(&self) -> ClaimsView {
        ClaimsView { exp: self.exp as nat, iat: self.iat as nat, sub: self.sub@ }
    }
}

/// The answer to a successful sign-in.
#[derive(Debug, Clone, PartialEq, Eq)]
pub struct OAuth2Response {
    pub token_type: String,
    pub access_token: String,
    /// Lifetime of the token, in seconds.
    pub expires_in: i64,
}

impl OAuth2Response {
    /// A bearer-token answer for `token`, valid for `expires_in` seconds.
    pub fn new_bearer(token: String, expires_in: i64) -> (r: Self)
        ensures
            r.token_type@ == "Bearer"@,
            r.access_token == token,
            r.expires_in == expires_in,
    {
        Self { token_type: String::from_str("Bearer"), access_token: token, expires_in }
    }
}

/// The rules of a username and password pair: the username is required, not
/// empty and an e-mail address; the password is required and has at least
/// six characters.
pub open spec fn credential_schema() -> Seq<FieldRulesView> {
    seq![
        FieldRulesView {
            field: "username"@,
            rules: seq![
                RuleView::Required { message: None },
                RuleView::Length { min: Some(1u64), max: None, message: None },
                RuleView::Email { message: Some("email is invalid"@) },
            ],
        },
        FieldRulesView {
            field: "password"@,
            rules: seq![
                RuleView::Required { message: None },
                RuleView::Length { min: Some(6u64), max: None, message: None },
            ],
        },
    ]
}

/// The rules of a username and password pair, as data.
pub fn credential_rules() -> (schema: Vec<FieldRules>)
    ensures
        schema_views(schema@) == credential_schema(),
{
    let mut username: Vec<Rule> = Vec::new();
    username.push(Rule::Required { message: None });
    username.push(Rule::Length { min: Some(1), max: None, message: None });
    username.push(Rule::Email { message: Some(String::from_str("email is invalid")) });
    let mut password: Vec<Rule> = Vec::new();
    password.push(Rule::Required { message: None });
    password.push(Rule::Length { min: Some(6), max: None, message: None });
    let mut schema: Vec<FieldRules> = Vec::new();
    schema.push(FieldRules { field: String::from_str("username"), rules: username });
    schema.push(FieldRules { field: String::from_str("password"), rules: password });
    proof {
        assert(schema@[0]@.rules =~= credential_schema()[0].rules);
        assert(schema@[1]@.rules =~= credential_schema()[1].rules);
        assert(schema_views(schema@) =~= credential_schema());
    }
    schema
}

/// Checks a username and password pair against [`credential_schema`].
pub fn check_credentials(username: &Option<String>, password: &Option<String>) -> (r: Result<
    (),
    Violations,
>)
    ensures
        match r {
            Ok(_) => credential_violations(opt_text(*username), opt_text(*password)).len() == 0,
            Err(found) => found@.len() > 0 && found@ == credential_violations(
                opt_text(*username),
                opt_text(*password),
            ),
        },
{
    let schema = credential_rules();
    let mut values: Vec<Option<String>> = Vec::new();
    values.push(username.clone());
    values.push(password.clone());
    proof {
        assert(crate::validation::value_views(values@) =~= seq![
            opt_text(*username),
            opt_text(*password),
        ]);
    }
    check_fields(&schema, &values)
}

/// What validation finds in a username and password pair.
pub open spec fn credential_violations(
    username: Option<Seq<char>>,
    password: Option<Seq<char>>,
) -> Seq<FieldViolationsView> {
    schema_violations(credential_schema(), seq![username, password])
}

impl Validate for SignInPayload {
    open spec fn violations(&self) -> Seq<FieldViolationsView> {
        credential_violations(opt_text(self.username), opt_text(self.password))
    }

    fn validate(&self) -> (r: Result<(), Violations>) {
        check_credentials(&self.username, &self.password)
    }
}

/// What the rules of the field at place `i` of [`credential_schema`] find in `value`.
pub open spec fn credential_findings(i: int, value: Option<Seq<char>>) -> Seq<ViolationView> {
    rules_violations(credential_schema()[i].rules, value, email_ok_of(value), value_text_of(value))
}

/// Both fields of a username and password pair are checked, whatever the
/// other one holds: the error map holds under `username` the message of
/// every rule the username breaks, and under `password` the message of every
/// rule the password breaks.
pub proof fn lemma_credentials_report_both_fields(
    username: Option<Seq<char>>,
    password: Option<Seq<char>>,
)
    ensures
        messages_of(error_map_of(credential_violations(username, password)), "username"@)
            == messages("username"@, credential_findings(0, username)),
        messages_of(error_map_of(credential_violations(username, password)), "password"@)
            == messages("password"@, credential_findings(1, password)),
{
    reveal_strlit("username");
    reveal_strlit("password");
    assert("username"@ != "password"@) by {
        assert("username"@[0] == 'u');
        assert("password"@[0] == 'p');
    }
    let schema = credential_schema();
    let values = seq![username, password];
    let found = credential_violations(username, password);
    let first = schema.drop_last();
    assert(first.drop_last() =~= Seq::<FieldRulesView>::empty());
    assert(first.last() == schema[0]);
    assert(schema.last() == schema[1]);
    let from_username = crate::validation::found_for(
        "username"@,
        schema[0].rules,
        username,
    );
    let from_password = crate::validation::found_for(
        "password"@,
        schema[1].rules,
        password,
    );
    assert(schema_violations(first.drop_last(), values) =~= Seq::<FieldViolationsView>::empty());
    assert(schema_violations(first, values) =~= from_username);
    assert(found =~= from_username + from_password);
    lemma_error_map_is_complete(found, "username"@);
    lemma_error_map_is_complete(found, "password"@);
    lemma_collected_of_two(from_username, from_password, "username"@);
    lemma_collected_of_two(from_username, from_password, "password"@);
    assert(collected(from_username, "username"@) =~= messages(
        "username"@,
        credential_findings(0, username),
    )) by {
        lemma_collected_of_one("username"@, credential_findings(0, username), "username"@);
    }
    assert(collected(from_password, "password"@) =~= messages(
        "password"@,
        credential_findings(1, password),
    )) by {
        lemma_collected_of_one("password"@, credential_findings(1, password), "password"@);
    }
    assert(collected(from_username, "password"@) =~= Seq::<Seq<char>>::empty()) by {
        lemma_collected_of_one("username"@, credential_findings(0, username), "password"@);
    }
    assert(collected(from_password, "username"@) =~= Seq::<Seq<char>>::empty()) by {
        lemma_collected_of_one("password"@, credential_findings(1, password), "username"@);
    }
}

/// What is collected from the findings of one field.
proof fn lemma_collected_of_one(field: Seq<char>, list: Seq<ViolationView>, wanted: Seq<char>)
    ensures
        collected(crate::validation::found_for_list(field, list), wanted) == (if wanted == field {
            messages(field, list)
        } else {
            Seq::empty()
        }),
{
    let found = crate::validation::found_for_list(field, list);
    if list.len() == 0 {
        assert(messages(field, list) =~= Seq::<Seq<char>>::empty());
    } else {
        assert(found.drop_last() =~= Seq::<FieldViolationsView>::empty());
        assert(collected(found.drop_last(), wanted) =~= Seq::<Seq<char>>::empty());
        if wanted == field {
            assert(collected(found, wanted) =~= messages(field, list));
        }
    }
}

/// What is collected from two runs of findings is what is collected from
/// each, one after the other.
proof fn lemma_collected_of_two(
    a: Seq<FieldViolationsView>,
    b: Seq<FieldViolationsView>,
    wanted: Seq<char>,
)
    ensures
        collected(a + b, wanted) == collected(a, wanted) + collected(b, wanted),
    decreases b.len(),
{
    if b.len() == 0 {
        assert(a + b =~= a);
        assert(collected(a, wanted) + collected(b, wanted) =~= collected(a, wanted));
    } else {
        assert((a + b).drop_last() =~= a + b.drop_last());
        assert((a + b).last() == b.last());
        lemma_collected_of_two(a, b.drop_last(), wanted);
        assert(collected(a + b, wanted) =~= collected(a, wanted) + collected(b, wanted));
    }
}

} // verus!
