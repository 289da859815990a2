//! Validation of request shapes: the rules a field can carry, the violations
//! they report and the messages shown for them.

use crate::json::{json_string_literal, json_text_of};
use crate::text::{decimal, decimal_text, join, join_text, texts};
use vstd::prelude::*;

verus! {

/// One rule that a field's value broke.
#[derive(Debug, Clone, PartialEq, Eq)]
pub struct Violation {
    /// Name of the rule, such as `required`, `length` or `email`.
    pub code: String,
    /// Message chosen by the shape that declared the rule, if any.
    pub message: Option<String>,
    /// Parameters of the rule and the offending value, each as a name and its JSON text.
    pub params: Vec<(String, String)>,
}

/// Mathematical model of a [`Violation`].
pub struct ViolationView {
    pub code: Seq<char>,
    pub message: Option<Seq<char>>,
    pub params: Seq<(Seq<char>, Seq<char>)>,
}

/// The name and value texts of `params`, in order.
pub open spec fn pairs(params: Seq<(String, String)>) -> Seq<(Seq<char>, Seq<char>)> {
    Seq::new(params.len(), |i: int| (params[i].0@, params[i].1@))
}

impl View for Violation {
    type V = ViolationView;

    open spec fn view(&self) -> ViolationView {
        ViolationView {
            code: self.code@,
            message: match self.message {
                Some(m) => Some(m@),
                None => None,
            },
            params: pairs(self.params@),
        }
    }
}

/// What was found wrong under one field name.
#[derive(Debug, Clone, PartialEq, Eq)]
pub enum ViolationKind {
    /// Rules broken by the field's own value, in the order they were found.
    Field(Vec<Violation>),
    /// Violations inside a nested shape or list; they carry no message of their own.
    Nested,
}

/// Mathematical model of a [`ViolationKind`].
pub enum ViolationKindView {
    Field(Seq<ViolationView>),
    Nested,
}

/// The models of `list`, in order.
pub open spec fn violation_views(list: Seq<Violation>) -> Seq<ViolationView> {
    Seq::new(list.len(), |i: int| list[i]@)
}

impl View for ViolationKind {
    type V = ViolationKindView;

    open spec fn view(&self) -> ViolationKindView {
        match self {
            ViolationKind::Field(list) => ViolationKindView::Field(violation_views(list@)),
            ViolationKind::Nested => ViolationKindView::Nested,
        }
    }
}

/// The violations recorded for one field.
#[derive(Debug, Clone, PartialEq, Eq)]
pub struct FieldViolations {
    pub field: String,
    pub kind: ViolationKind,
}

/// Mathematical model of a [`FieldViolations`].
pub struct FieldViolationsView {
    pub field: Seq<char>,
    pub kind: ViolationKindView,
}

impl View for FieldViolations {
    type V = FieldViolationsView;

    open spec fn view(&self) -> FieldViolationsView {
        FieldViolationsView { field: self.field@, kind: self.kind@ }
    }
}

/// Everything a validation run found, field by field in the order of discovery.
#[derive(Debug, Clone, PartialEq, Eq)]
pub struct Violations {
    pub fields: Vec<FieldViolations>,
}

impl View for Violations {
    type V = Seq<FieldViolationsView>;

    open spec fn view(&self) -> Seq<FieldViolationsView> {
        Seq::new(self.fields@.len(), |i: int| self.fields@[i]@)
    }
}

/// The phrases `<name> value is <value>` for every parameter but the one named `value`.
pub open spec fn param_phrases(params: Seq<(Seq<char>, Seq<char>)>) -> Seq<Seq<char>>
    decreases params.len(),
{
    if params.len() == 0 {
        Seq::empty()
    } else {
        let rest = param_phrases(params.drop_last());
        let p = params.last();
        if p.0 == "value"@ {
            rest
        } else {
            rest.push(p.0 + " value is "@ + p.1)
        }
    }
}

/// The message shown for violation `v` of field `field`: its own message if it
/// has one; else its parameters, comma separated; else `<field> is required`.
pub open spec fn violation_message(field: Seq<char>, v: ViolationView) -> Seq<char> {
    match v.message {
        Some(m) => m,
        None => {
            let phrases = param_phrases(v.params);
            if phrases.len() == 0 {
                field + " is required"@
            } else {
                join(phrases, ", "@)
            }
        },
    }
}

/// The phrases describing `params`, leaving out the offending value itself.
pub fn describe_params(params: &Vec<(String, String)>) -> (out: Vec<String>)
    ensures
        texts(out@) == param_phrases(pairs(params@)),
{
    let value_key = String::from_str("value");
    let mut out: Vec<String> = Vec::new();
    let mut i: usize = 0;
    while i < params.len()
        invariant
            i <= params.len(),
            value_key@ == "value"@,
            texts(out@) == param_phrases(pairs(params@).take(i as int)),
        decreases params.len() - i,
    {
        proof {
            let now = pairs(params@).take(i + 1);
            assert(now.drop_last() =~= pairs(params@).take(i as int));
            assert(now.last() == (params@[i as int].0@, params@[i as int].1@));
        }
        let ghost before = out@;
        if params[i].0 != value_key {
            let mut phrase = params[i].0.clone();
            phrase.append(" value is ");
            phrase.append(params[i].1.as_str());
            out.push(phrase);
            assert(texts(out@) =~= texts(before).push(phrase@));
        }
        i = i + 1;
    }
    proof {
        assert(pairs(params@).take(params.len() as int) =~= pairs(params@));
    }
    out
}

impl Violation {
    /// The message shown to the client for this violation of `field`.
    pub fn message_for(&self, field: &str) -> (msg: String)
        ensures
            msg@ == violation_message(field@, self@),
    {
        match &self.message {
            Some(m) => m.clone(),
            None => {
                let phrases = describe_params(&self.params);
                if phrases.len() == 0 {
                    let mut msg = String::from_str(field);
                    msg.append(" is required");
                    msg
                } else {
                    join_text(&phrases, ", ")
                }
            },
        }
    }
}

/// Whether a text is an e-mail address by the rules of the HTML5
/// specification, as `validator` decides it.
pub uninterp spec fn is_email(s: Seq<char>) -> bool;

/// Calls `validator::ValidateEmail::validate_email` on the text. The result
/// depends on the text alone; the contract names it [`is_email`].
#[verifier::external_body]
fn looks_like_email(s: &str) -> (ok: bool)
    ensures
        ok == is_email(s@),
{
    validator::ValidateEmail::validate_email(&s)
}

/// A constraint on one field of a request shape.
#[derive(Debug, Clone, PartialEq, Eq)]
pub enum Rule {
    /// The field must be present.
    Required { message: Option<String> },
    /// The number of characters of a present field lies within the bounds given.
    Length { min: Option<u64>, max: Option<u64>, message: Option<String> },
    /// A present field is an e-mail address.
    Email { message: Option<String> },
}

/// The rules of one field, by its name.
#[derive(Debug, Clone, PartialEq, Eq)]
pub struct FieldRules {
    pub field: String,
    pub rules: Vec<Rule>,
}

/// Mathematical model of a [`Rule`].
pub enum RuleView {
    Required { message: Option<Seq<char>> },
    Length { min: Option<u64>, max: Option<u64>, message: Option<Seq<char>> },
    Email { message: Option<Seq<char>> },
}

impl View for Rule {
    type V = RuleView;

    open spec fn view(&self) -> RuleView {
        match self {
            Rule::Required { message } => RuleView::Required { message: opt_text(*message) },
            Rule::Length { min, max, message } => RuleView::Length {
                min: *min,
                max: *max,
                message: opt_text(*message),
            },
            Rule::Email { message } => RuleView::Email { message: opt_text(*message) },
        }
    }
}

/// The models of `rules`, in order.
pub open spec fn rule_views(rules: Seq<Rule>) -> Seq<RuleView> {
    Seq::new(rules.len(), |i: int| rules[i]@)
}

/// The content of an optional text.
pub open spec fn opt_text(o: Option<String>) -> Option<Seq<char>> {
    match o {
        Some(s) => Some(s@),
        None => None,
    }
}

/// The parameters reported with a broken length rule.
pub open spec fn length_params(min: Option<u64>, max: Option<u64>, value_text: Seq<char>) -> Seq<
    (Seq<char>, Seq<char>),
> {
    let lower = match min {
        Some(m) => seq![("min"@, decimal(m as nat))],
        None => Seq::empty(),
    };
    let upper = match max {
        Some(m) => seq![("max"@, decimal(m as nat))],
        None => Seq::empty(),
    };
    lower + upper + seq![("value"@, value_text)]
}

/// Whether a text of `len` characters breaks the bounds.
pub open spec fn length_broken(min: Option<u64>, max: Option<u64>, len: nat) -> bool {
    (min matches Some(m) && len < m) || (max matches Some(m) && len > m)
}

/// The violation that `rule` reports for `value`, if any. `email_ok` says
/// whether a present value is an e-mail address and `value_text` is the JSON
/// text of the value.
pub open spec fn rule_violation(
    rule: RuleView,
    value: Option<Seq<char>>,
    email_ok: bool,
    value_text: Seq<char>,
) -> Option<ViolationView> {
    match rule {
        RuleView::Required { message } => if value is None {
            Some(
                ViolationView {
                    code: "required"@,
                    message,
                    params: seq![("value"@, value_text)],
                },
            )
        } else {
            None
        },
        RuleView::Length { min, max, message } => if value is Some && length_broken(
            min,
            max,
            value->0.len(),
        ) {
            Some(
                ViolationView {
                    code: "length"@,
                    message,
                    params: length_params(min, max, value_text),
                },
            )
        } else {
            None
        },
        RuleView::Email { message } => if value is Some && !email_ok {
            Some(
                ViolationView {
                    code: "email"@,
                    message,
                    params: seq![("value"@, value_text)],
                },
            )
        } else {
            None
        },
    }
}

/// Whether a value counts as an e-mail address: an absent one does.
pub open spec fn email_ok_of(value: Option<Seq<char>>) -> bool {
    match value {
        Some(v) => is_email(v),
        None => true,
    }
}

/// The JSON text of a value: `null` for an absent one.
pub open spec fn value_text_of(value: Option<Seq<char>>) -> Seq<char> {
    match value {
        Some(v) => json_string_literal(v),
        None => "null"@,
    }
}

/// The violations that `rules` report for `value`, in the order of the rules.
pub open spec fn rules_violations(
    rules: Seq<RuleView>,
    value: Option<Seq<char>>,
    email_ok: bool,
    value_text: Seq<char>,
) -> Seq<ViolationView>
    decreases rules.len(),
{
    if rules.len() == 0 {
        Seq::empty()
    } else {
        let rest = rules_violations(rules.drop_last(), value, email_ok, value_text);
        match rule_violation(rules.last(), value, email_ok, value_text) {
            Some(v) => rest.push(v),
            None => rest,
        }
    }
}

fn copy_message(message: &Option<String>) -> (r: Option<String>)
    ensures
        opt_text(r) == opt_text(*message),
{
    match message {
        Some(m) => Some(m.clone()),
        None => None,
    }
}

fn param(name: &str, value: String) -> (p: (String, String))
    ensures
        p.0@ == name@,
        p.1@ == value@,
{
    (String::from_str(name), value)
}

impl Rule {
    /// Judges `value` by this rule, given whether it is an e-mail address
    /// and its JSON text.
    pub fn judge(&self, value: &Option<String>, email_ok: bool, value_text: &str) -> (r: Option<
        Violation,
    >)
        ensures
            match r {
                Some(v) => Some(v@),
                None => None,
            } == rule_violation(self@, opt_text(*value), email_ok, value_text@),
    {
        match self {
            Rule::Required { message } => {
                if value.is_none() {
                    let mut params: Vec<(String, String)> = Vec::new();
                    params.push(param("value", String::from_str(value_text)));
                    let v = Violation {
                        code: String::from_str("required"),
                        message: copy_message(message),
                        params,
                    };
                    assert(v@.params =~= seq![("value"@, value_text@)]);
                    Some(v)
                } else {
                    None
                }
            },
            Rule::Length { min, max, message } => {
                match value {
                    Some(text) => {
                        let len = text.as_str().unicode_len();
                        let short = match min {
                            Some(m) => (len as u64) < *m,
                            None => false,
                        };
                        let long = match max {
                            Some(m) => (len as u64) > *m,
                            None => false,
                        };
                        if short || long {
                            let mut params: Vec<(String, String)> = Vec::new();
                            match min {
                                Some(m) => {
                                    params.push(param("min", decimal_text(*m)));
                                },
                                None => {},
                            }
                            match max {
                                Some(m) => {
                                    params.push(param("max", decimal_text(*m)));
                                },
                                None => {},
                            }
                            params.push(param("value", String::from_str(value_text)));
                            let v = Violation {
                                code: String::from_str("length"),
                                message: copy_message(message),
                                params,
                            };
                            assert(v@.params =~= length_params(*min, *max, value_text@));
                            Some(v)
                        } else {
                            None
                        }
                    },
                    None => None,
                }
            },
            Rule::Email { message } => {
                if value.is_some() && !email_ok {
                    let mut params: Vec<(String, String)> = Vec::new();
                    params.push(param("value", String::from_str(value_text)));
                    let v = Violation {
                        code: String::from_str("email"),
                        message: copy_message(message),
                        params,
                    };
                    assert(v@.params =~= seq![("value"@, value_text@)]);
                    Some(v)
                } else {
                    None
                }
            },
        }
    }
}

/// Judges `value` by every rule of `rules`, stopping at none of them.
pub fn judge_all(rules: &Vec<Rule>, value: &Option<String>, email_ok: bool, value_text: &str) -> (out:
    Vec<Violation>)
    ensures
        violation_views(out@) == rules_violations(
            rule_views(rules@),
            opt_text(*value),
            email_ok,
            value_text@,
        ),
{
    let mut out: Vec<Violation> = Vec::new();
    let mut i: usize = 0;
    while i < rules.len()
        invariant
            i <= rules.len(),
            violation_views(out@) == rules_violations(
                rule_views(rules@).take(i as int),
                opt_text(*value),
                email_ok,
                value_text@,
            ),
        decreases rules.len() - i,
    {
        proof {
            assert(rule_views(rules@).take(i + 1).drop_last() =~= rule_views(rules@).take(
                i as int,
            ));
            assert(rule_views(rules@).take(i + 1).last() == rules@[i as int]@);
        }
        let ghost before = out@;
        match rules[i].judge(value, email_ok, value_text) {
            Some(v) => {
                out.push(v);
                assert(violation_views(out@) =~= violation_views(before).push(v@));
            },
            None => {},
        }
        i = i + 1;
    }
    proof {
        assert(rule_views(rules@).take(rules.len() as int) =~= rule_views(rules@));
    }
    out
}

/// The violations of `value` against `rules`: every rule is judged.
pub fn check_value(rules: &Vec<Rule>, value: &Option<String>) -> (out: Vec<Violation>)
    ensures
        violation_views(out@) == rules_violations(
            rule_views(rules@),
            opt_text(*value),
            email_ok_of(opt_text(*value)),
            value_text_of(opt_text(*value)),
        ),
{
    match value {
        Some(text) => {
            let email_ok = looks_like_email(text.as_str());
            let value_text = json_text_of(text.as_str());
            judge_all(rules, value, email_ok, value_text.as_str())
        },
        None => judge_all(rules, value, true, "null"),
    }
}

/// Mathematical model of a [`FieldRules`].
pub struct FieldRulesView {
    pub field: Seq<char>,
    pub rules: Seq<RuleView>,
}

impl View for FieldRules {
    type V = FieldRulesView;

    open spec fn view(&self) -> FieldRulesView {
        FieldRulesView { field: self.field@, rules: rule_views(self.rules@) }
    }
}

/// The models of the fields of `schema`, in order.
pub open spec fn schema_views(schema: Seq<FieldRules>) -> Seq<FieldRulesView> {
    Seq::new(schema.len(), |i: int| schema[i]@)
}

/// The contents of `values`, in order.
pub open spec fn value_views(values: Seq<Option<String>>) -> Seq<Option<Seq<char>>> {
    Seq::new(values.len(), |i: int| opt_text(values[i]))
}

/// The value at place `i`; absent where `values` is too short.
pub open spec fn value_at(values: Seq<Option<Seq<char>>>, i: int) -> Option<Seq<char>> {
    if 0 <= i < values.len() {
        values[i]
    } else {
        None
    }
}

/// What is recorded for one field: nothing where no rule is broken, else
/// one entry with every broken rule.
pub open spec fn found_for(field: Seq<char>, rules: Seq<RuleView>, value: Option<Seq<char>>) -> Seq<
    FieldViolationsView,
> {
    found_for_list(
        field,
        rules_violations(rules, value, email_ok_of(value), value_text_of(value)),
    )
}

/// The record of the violations `list` of one field: nothing where the list
/// is empty, else one entry with the whole list.
pub open spec fn found_for_list(field: Seq<char>, list: Seq<ViolationView>) -> Seq<
    FieldViolationsView,
> {
    if list.len() == 0 {
        Seq::empty()
    } else {
        seq![FieldViolationsView { field, kind: ViolationKindView::Field(list) }]
    }
}

/// What validation of `values` against `schema` finds: the fields in the
/// order of the schema, each field's value taken from the same place.
pub open spec fn schema_violations(
    schema: Seq<FieldRulesView>,
    values: Seq<Option<Seq<char>>>,
) -> Seq<FieldViolationsView>
    decreases schema.len(),
{
    if schema.len() == 0 {
        Seq::empty()
    } else {
        schema_violations(schema.drop_last(), values) + found_for(
            schema.last().field,
            schema.last().rules,
            value_at(values, schema.len() - 1),
        )
    }
}

/// Checks every field of `schema` against the value at the same place of
/// `values` and collects all that is found; a missing value counts as absent.
pub fn check_fields(schema: &Vec<FieldRules>, values: &Vec<Option<String>>) -> (r: Result<
    (),
    Violations,
>)
    ensures
        match r {
            Ok(_) => schema_violations(schema_views(schema@), value_views(values@)).len() == 0,
            Err(found) => found@.len() > 0 && found@ == schema_violations(
                schema_views(schema@),
                value_views(values@),
            ),
        },
{
    let mut found = Violations { fields: Vec::new() };
    let absent: Option<String> = None;
    let mut i: usize = 0;
    assert(found@ =~= Seq::<FieldViolationsView>::empty());
    while i < schema.len()
        invariant
            i <= schema.len(),
            absent is None,
            found@ == schema_violations(schema_views(schema@).take(i as int), value_views(values@)),
        decreases schema.len() - i,
    {
        proof {
            assert(schema_views(schema@).take(i + 1).drop_last() =~= schema_views(schema@).take(
                i as int,
            ));
            assert(schema_views(schema@).take(i + 1).last() == schema@[i as int]@);
        }
        let value = if i < values.len() {
            &values[i]
        } else {
            &absent
        };
        assert(opt_text(*value) == value_at(value_views(values@), i as int));
        let list = check_value(&schema[i].rules, value);
        let ghost before = found@;
        if list.len() > 0 {
            let entry = FieldViolations {
                field: schema[i].field.clone(),
                kind: ViolationKind::Field(list),
            };
            found.fields.push(entry);
            assert(found@ =~= before + seq![entry@]);
        } else {
            assert(found@ =~= before + Seq::<FieldViolationsView>::empty());
        }
        i = i + 1;
    }
    proof {
        assert(schema_views(schema@).take(schema.len() as int) =~= schema_views(schema@));
    }
    if found.fields.len() == 0 {
        Ok(())
    } else {
        Err(found)
    }
}

/// A request shape that knows its validation rules.
pub trait Validate {
    /// What validation finds in this value, field by field.
    spec fn violations(&self) -> Seq<FieldViolationsView>;

    /// Checks every rule of every field. Fails with all that was found, not
    /// only the first violation.
    fn validate(&self) -> (r: Result<(), Violations>)
        ensures
            match r {
                Ok(_) => self.violations().len() == 0,
                Err(found) => found@.len() > 0 && found@ == self.violations(),
            },
    ;
}

} // verus!
