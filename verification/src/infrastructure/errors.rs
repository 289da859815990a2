//! The closed set of failures and the response each one is answered with.

use crate::infrastructure::error_map::{
    add_message, distinct_fields, lemma_add_message, messages_of, ErrorMap,
};
use crate::text::{decimal, decimal_text};
use crate::validation::{
    violation_message, FieldViolationsView, Violation, ViolationKind, ViolationKindView,
    ViolationView, Violations,
};
use vstd::prelude::*;

verus! {

/// Result of an operation that can fail with an [`AppError`].
pub type AppResult<T> = Result<T, AppError>;

pub const STATUS_BAD_REQUEST: u16 = 400;

pub const STATUS_UNAUTHORIZED: u16 = 401;

pub const STATUS_FORBIDDEN: u16 = 403;

pub const STATUS_NOT_FOUND: u16 = 404;

pub const STATUS_REQUEST_TIMEOUT: u16 = 408;

pub const STATUS_CONFLICT: u16 = 409;

pub const STATUS_PRECONDITION_FAILED: u16 = 412;

pub const STATUS_INTERNAL_SERVER_ERROR: u16 = 500;

/// Body of a failure that is told in one message.
#[derive(Debug, Clone, PartialEq, Eq)]
pub struct HttpError {
    pub error: String,
}

impl HttpError {
    #[must_use]
    pub fn new(error: String) -> (r: Self)
        ensures
            r.error == error,
    {
        Self { error }
    }
}

/// A message about one field of a request.
#[derive(Debug, Clone, PartialEq, Eq)]
pub struct ValidationMessageError {
    pub field: String,
    pub message: String,
}

impl ValidationMessageError {
    /// The error as one line of text.
    pub fn to_string(&self) -> (s: String)
        ensures
            s@ == "Field "@ + self.field@ + " : "@ + self.message@,
    {
        let mut s = String::from_str("Field ");
        s.append(self.field.as_str());
        s.append(" : ");
        s.append(self.message.as_str());
        s
    }
}

/// Messages about several fields of a request.
#[derive(Debug, Clone, PartialEq, Eq)]
pub struct ValidationMessageErrors {
    pub errors: Vec<ValidationMessageError>,
}

impl ValidationMessageErrors {
    #[must_use]
    pub fn from(errors: Vec<ValidationMessageError>) -> (r: Self)
        ensures
            r.errors == errors,
    {
        Self { errors }
    }

    /// The errors as one line of text: how many there are.
    pub fn to_string(&self) -> (s: String)
        ensures
            s@ == "Field error: "@ + decimal(self.errors@.len()),
    {
        let mut s = String::from_str("Field error: ");
        let count = decimal_text(self.errors.len() as u64);
        s.append(count.as_str());
        s
    }
}

/// Everything that can go wrong while a request is served.
#[derive(Debug, Clone, PartialEq, Eq)]
pub enum AppError {
    NotFound(String),
    BadRequest(String),
    Unauthorized,
    Forbidden(String),
    InternalServerError,
    InternalServerErrorWithContext(String),
    Conflict(String),
    PreconditionFailed(String),
    /// The body could not be read as the expected shape; holds the diagnostic.
    AxumJsonRejection(String),
    /// The query string could not be read as the expected shape; holds the diagnostic.
    AxumQueryRejection(String),
    /// The path could not be read as the expected shape; holds the diagnostic.
    AxumPathRejection(String),
    ValidationErrors(Violations),
    ValidationError(Violation),
    UnprocessableEntity { errors: ErrorMap },
    SerdeJsonError(String),
    AnyhowError(String),
    ConfigError(String),
    DbError(String),
    TransactionError(String),
    DecodeError(String),
    ParticipantQuotaExceeded,
    ParticipantAlreadyExists,
    ValidationMessageError(ValidationMessageError),
    ValidationMessageErrors(ValidationMessageErrors),
    SqlxDbError(String),
    ProjectVersionIdMismatch,
    FailedParsingVariable,
    UuidParseError(String),
}

/// Body of an error response. It has one top-level key: `error` or `errors`.
#[derive(Debug, Clone, PartialEq, Eq)]
pub enum ErrorBody {
    /// `{"error": message}`
    Error(HttpError),
    /// `{"errors": {field: [messages]}}`
    Errors(ErrorMap),
    /// `{"errors": [{"field": .., "message": ..}]}`
    FieldErrors(Vec<ValidationMessageError>),
}

impl ErrorBody {
    /// The one top-level key of the body.
    pub open spec fn top_level_key(&self) -> Seq<char> {
        match self {
            ErrorBody::Error(_) => "error"@,
            ErrorBody::Errors(_) => "errors"@,
            ErrorBody::FieldErrors(_) => "errors"@,
        }
    }

    /// The one top-level key of the body.
    pub fn key(&self) -> (k: &'static str)
        ensures
            k@ == self.top_level_key(),
    {
        match self {
            ErrorBody::Error(_) => "error",
            ErrorBody::Errors(_) => "errors",
            ErrorBody::FieldErrors(_) => "errors",
        }
    }
}

/// An error as it goes out: the status code and the body.
#[derive(Debug, Clone, PartialEq, Eq)]
pub struct ErrorResponse {
    pub status: u16,
    pub body: ErrorBody,
}

/// `m` with the message of each violation of `list` added under `field`, in order.
pub open spec fn add_messages(
    m: Seq<(Seq<char>, Seq<Seq<char>>)>,
    field: Seq<char>,
    list: Seq<ViolationView>,
) -> Seq<(Seq<char>, Seq<Seq<char>>)>
    decreases list.len(),
{
    if list.len() == 0 {
        m
    } else {
        add_message(
            add_messages(m, field, list.drop_last()),
            field,
            violation_message(field, list.last()),
        )
    }
}

/// The error map of `found`: every violation of every field's own value, in
/// the order found. Nested findings add nothing.
pub open spec fn error_map_of(found: Seq<FieldViolationsView>) -> Seq<(Seq<char>, Seq<Seq<char>>)>
    decreases found.len(),
{
    if found.len() == 0 {
        Seq::empty()
    } else {
        let m = error_map_of(found.drop_last());
        match found.last().kind {
            ViolationKindView::Field(list) => add_messages(m, found.last().field, list),
            ViolationKindView::Nested => m,
        }
    }
}

/// Adding messages keeps the fields of a map distinct.
pub proof fn lemma_add_messages_distinct(
    m: Seq<(Seq<char>, Seq<Seq<char>>)>,
    field: Seq<char>,
    list: Seq<ViolationView>,
)
    requires
        distinct_fields(m),
    ensures
        distinct_fields(add_messages(m, field, list)),
    decreases list.len(),
{
    if list.len() > 0 {
        lemma_add_messages_distinct(m, field, list.drop_last());
        lemma_add_message(
            add_messages(m, field, list.drop_last()),
            field,
            violation_message(field, list.last()),
        );
    }
}

/// No field occurs twice in an error map built from violations.
pub proof fn lemma_error_map_distinct(found: Seq<FieldViolationsView>)
    ensures
        distinct_fields(error_map_of(found)),
    decreases found.len(),
{
    if found.len() > 0 {
        lemma_error_map_distinct(found.drop_last());
        match found.last().kind {
            ViolationKindView::Field(list) => {
                lemma_add_messages_distinct(
                    error_map_of(found.drop_last()),
                    found.last().field,
                    list,
                );
            },
            ViolationKindView::Nested => {},
        }
    }
}

/// The messages of the violations of `list`, in order.
pub open spec fn messages(field: Seq<char>, list: Seq<ViolationView>) -> Seq<Seq<char>> {
    Seq::new(list.len(), |j: int| violation_message(field, list[j]))
}

/// The messages of every violation that `found` records under `field`, in
/// the order of discovery.
pub open spec fn collected(found: Seq<FieldViolationsView>, field: Seq<char>) -> Seq<Seq<char>>
    decreases found.len(),
{
    if found.len() == 0 {
        Seq::empty()
    } else {
        let before = collected(found.drop_last(), field);
        match found.last().kind {
            ViolationKindView::Field(list) => if found.last().field == field {
                before + messages(field, list)
            } else {
                before
            },
            ViolationKindView::Nested => before,
        }
    }
}

/// Adding the messages of a list of violations appends them all under their
/// field and leaves every other field as it was.
pub proof fn lemma_add_messages(
    m: Seq<(Seq<char>, Seq<Seq<char>>)>,
    field: Seq<char>,
    list: Seq<ViolationView>,
)
    requires
        distinct_fields(m),
    ensures
        messages_of(add_messages(m, field, list), field) == messages_of(m, field) + messages(
            field,
            list,
        ),
        forall|other: Seq<char>|
            other != field ==> messages_of(add_messages(m, field, list), other) == messages_of(
                m,
                other,
            ),
    decreases list.len(),
{
    if list.len() == 0 {
        assert(messages_of(m, field) + messages(field, list) =~= messages_of(m, field));
    } else {
        let shorter = list.drop_last();
        let inner = add_messages(m, field, shorter);
        lemma_add_messages(m, field, shorter);
        lemma_add_messages_distinct(m, field, shorter);
        lemma_add_message(inner, field, violation_message(field, list.last()));
        assert(messages(field, list) =~= messages(field, shorter).push(
            violation_message(field, list.last()),
        ));
        assert(messages_of(add_messages(m, field, list), field) =~= messages_of(m, field)
            + messages(field, list));
    }
}

/// The error map leaves nothing out: under each field it holds the message
/// of every violation recorded for that field, all of them and in the order
/// of discovery, not only the first.
pub proof fn lemma_error_map_is_complete(found: Seq<FieldViolationsView>, field: Seq<char>)
    ensures
        messages_of(error_map_of(found), field) == collected(found, field),
    decreases found.len(),
{
    if found.len() > 0 {
        let earlier = found.drop_last();
        lemma_error_map_is_complete(earlier, field);
        lemma_error_map_distinct(earlier);
        match found.last().kind {
            ViolationKindView::Field(list) => {
                lemma_add_messages(error_map_of(earlier), found.last().field, list);
            },
            ViolationKindView::Nested => {},
        }
    } else {
        assert(messages_of(error_map_of(found), field) =~= collected(found, field));
    }
}

impl ErrorMap {
    /// Collects the messages of all violations, field by field.
    pub fn from_violations(found: &Violations) -> (m: ErrorMap)
        ensures
            m@ == error_map_of(found@),
            m.well_formed(),
    {
        let mut m = ErrorMap::new();
        let mut i: usize = 0;
        while i < found.fields.len()
            invariant
                i <= found.fields.len(),
                m@ == error_map_of(found@.take(i as int)),
            decreases found.fields.len() - i,
        {
            proof {
                assert(found@.take(i + 1).drop_last() =~= found@.take(i as int));
                assert(found@.take(i + 1).last() == found.fields@[i as int]@);
            }
            let entry = &found.fields[i];
            match &entry.kind {
                ViolationKind::Field(list) => {
                    let ghost base = m@;
                    let ghost views = entry.kind@->Field_0;
                    let mut j: usize = 0;
                    while j < list.len()
                        invariant
                            j <= list.len(),
                            views.len() == list@.len(),
                            forall|k: int| 0 <= k < list@.len() ==> views[k] == list@[k]@,
                            m@ == add_messages(base, entry.field@, views.take(j as int)),
                        decreases list.len() - j,
                    {
                        proof {
                            assert(views.take(j + 1).drop_last() =~= views.take(j as int));
                            assert(views.take(j + 1).last() == list@[j as int]@);
                        }
                        let msg = list[j].message_for(entry.field.as_str());
                        m.insert(entry.field.as_str(), msg);
                        j = j + 1;
                    }
                    proof {
                        assert(views.take(list@.len() as int) =~= views);
                    }
                },
                ViolationKind::Nested => {},
            }
            i = i + 1;
        }
        proof {
            assert(found@.take(found.fields@.len() as int) =~= found@);
            lemma_error_map_distinct(found@);
        }
        m
    }
}

impl AppError {
    /// The status code this failure is answered with.
    pub open spec fn response_status(&self) -> u16 {
        match self {
            AppError::NotFound(_) => STATUS_NOT_FOUND,
            AppError::BadRequest(_) => STATUS_BAD_REQUEST,
            AppError::Unauthorized => STATUS_UNAUTHORIZED,
            AppError::Forbidden(_) => STATUS_FORBIDDEN,
            AppError::Conflict(_) => STATUS_CONFLICT,
            AppError::PreconditionFailed(_) => STATUS_PRECONDITION_FAILED,
            AppError::AxumJsonRejection(_) => STATUS_BAD_REQUEST,
            AppError::AxumQueryRejection(_) => STATUS_BAD_REQUEST,
            AppError::AxumPathRejection(_) => STATUS_BAD_REQUEST,
            AppError::ValidationErrors(_) => STATUS_BAD_REQUEST,
            AppError::UnprocessableEntity { .. } => STATUS_BAD_REQUEST,
            AppError::ValidationMessageError(_) => STATUS_BAD_REQUEST,
            AppError::ValidationMessageErrors(_) => STATUS_BAD_REQUEST,
            AppError::ParticipantQuotaExceeded => STATUS_BAD_REQUEST,
            AppError::ParticipantAlreadyExists => STATUS_BAD_REQUEST,
            AppError::ProjectVersionIdMismatch => STATUS_BAD_REQUEST,
            AppError::FailedParsingVariable => STATUS_BAD_REQUEST,
            AppError::InternalServerError => STATUS_INTERNAL_SERVER_ERROR,
            AppError::InternalServerErrorWithContext(_) => STATUS_INTERNAL_SERVER_ERROR,
            AppError::ValidationError(_) => STATUS_INTERNAL_SERVER_ERROR,
            AppError::SerdeJsonError(_) => STATUS_INTERNAL_SERVER_ERROR,
            AppError::AnyhowError(_) => STATUS_INTERNAL_SERVER_ERROR,
            AppError::ConfigError(_) => STATUS_INTERNAL_SERVER_ERROR,
            AppError::DbError(_) => STATUS_INTERNAL_SERVER_ERROR,
            AppError::TransactionError(_) => STATUS_INTERNAL_SERVER_ERROR,
            AppError::DecodeError(_) => STATUS_INTERNAL_SERVER_ERROR,
            AppError::SqlxDbError(_) => STATUS_INTERNAL_SERVER_ERROR,
            AppError::UuidParseError(_) => STATUS_INTERNAL_SERVER_ERROR,
        }
    }

    /// The message this failure is answered with, for the failures that are
    /// told in one message.
    pub open spec fn response_message(&self) -> Seq<char> {
        match self {
            AppError::NotFound(m) => m@,
            AppError::BadRequest(m) => m@,
            AppError::Unauthorized => "authentication is required to access this resource"@,
            AppError::Forbidden(m) => m@,
            AppError::Conflict(m) => m@,
            AppError::PreconditionFailed(m) => m@,
            AppError::AxumJsonRejection(m) => m@,
            AppError::AxumQueryRejection(m) => m@,
            AppError::AxumPathRejection(m) => m@,
            AppError::ParticipantQuotaExceeded => "Participant quota exceeded"@,
            AppError::ParticipantAlreadyExists => "Participant already exists"@,
            AppError::ProjectVersionIdMismatch => "Mismatch project version id"@,
            AppError::FailedParsingVariable => "Failed to parse variable"@,
            AppError::InternalServerErrorWithContext(m) => m@,
            AppError::DbError(m) => m@,
            AppError::UuidParseError(m) => m@,
            _ => "unexpected error has occurred"@,
        }
    }

    /// True for the failures whose body lists messages under `errors`.
    pub open spec fn lists_errors(&self) -> bool {
        match self {
            AppError::ValidationErrors(_) => true,
            AppError::UnprocessableEntity { .. } => true,
            AppError::ValidationMessageError(_) => true,
            AppError::ValidationMessageErrors(_) => true,
            _ => false,
        }
    }

    /// Answers a failed validation with status 400 and the error map: for each
    /// field its messages, every violation included.
    #[must_use]
    pub fn unprocessable_entity(errors: Violations) -> (r: ErrorResponse)
        ensures
            r.status == STATUS_BAD_REQUEST,
            r.body matches ErrorBody::Errors(m) && m@ == error_map_of(errors@) && m.well_formed(),
    {
        let map = ErrorMap::from_violations(&errors);
        ErrorResponse { status: STATUS_BAD_REQUEST, body: ErrorBody::Errors(map) }
    }

    /// Answers with status 400 and the given field messages as a list.
    #[must_use]
    pub fn parse_validation_errors(errors: ValidationMessageErrors) -> (r: ErrorResponse)
        ensures
            r.status == STATUS_BAD_REQUEST,
            r.body == ErrorBody::FieldErrors(errors.errors),
    {
        ErrorResponse { status: STATUS_BAD_REQUEST, body: ErrorBody::FieldErrors(errors.errors) }
    }

    /// Answers with status 400 and the given field message as a list of one.
    #[must_use]
    pub fn parse_validation_error(error: ValidationMessageError) -> (r: ErrorResponse)
        ensures
            r.status == STATUS_BAD_REQUEST,
            r.body matches ErrorBody::FieldErrors(list) && list@ == seq![error],
    {
        let mut list: Vec<ValidationMessageError> = Vec::new();
        list.push(error);
        ErrorResponse { status: STATUS_BAD_REQUEST, body: ErrorBody::FieldErrors(list) }
    }

    /// The response this failure is answered with. Failures that are not
    /// mapped to a status of their own are answered as an internal error with
    /// a fixed message.
    pub fn into_response(self) -> (r: ErrorResponse)
        ensures
            r.status == self.response_status(),
            match self {
                AppError::ValidationErrors(found) => r.body matches ErrorBody::Errors(m) && m@
                    == error_map_of(found@) && m.well_formed(),
                AppError::UnprocessableEntity { errors } => r.body == ErrorBody::Errors(errors),
                AppError::ValidationMessageErrors(e) => r.body == ErrorBody::FieldErrors(e.errors),
                AppError::ValidationMessageError(e) => r.body matches ErrorBody::FieldErrors(list)
                    && list@ == seq![e],
                _ => r.body matches ErrorBody::Error(h) && h.error@ == self.response_message(),
            },
            r.body.top_level_key() == (if self.lists_errors() {
                "errors"@
            } else {
                "error"@
            }),
    {
        let (status, message) = match self {
            AppError::ValidationErrors(found) => {
                return Self::unprocessable_entity(found);
            },
            AppError::ValidationMessageErrors(e) => {
                return Self::parse_validation_errors(e);
            },
            AppError::ValidationMessageError(e) => {
                return Self::parse_validation_error(e);
            },
            AppError::UnprocessableEntity { errors } => {
                return ErrorResponse { status: STATUS_BAD_REQUEST, body: ErrorBody::Errors(errors) };
            },
            AppError::InternalServerErrorWithContext(err) => (STATUS_INTERNAL_SERVER_ERROR, err),
            AppError::NotFound(err) => (STATUS_NOT_FOUND, err),
            AppError::Conflict(err) => (STATUS_CONFLICT, err),
            AppError::PreconditionFailed(err) => (STATUS_PRECONDITION_FAILED, err),
            AppError::BadRequest(err) => (STATUS_BAD_REQUEST, err),
            AppError::Unauthorized => (
                STATUS_UNAUTHORIZED,
                String::from_str("authentication is required to access this resource"),
            ),
            AppError::Forbidden(err) => (STATUS_FORBIDDEN, err),
            AppError::AxumJsonRejection(err) => (STATUS_BAD_REQUEST, err),
            AppError::AxumQueryRejection(err) => (STATUS_BAD_REQUEST, err),
            AppError::AxumPathRejection(err) => (STATUS_BAD_REQUEST, err),
            AppError::ParticipantAlreadyExists => (
                STATUS_BAD_REQUEST,
                String::from_str("Participant already exists"),
            ),
            AppError::ParticipantQuotaExceeded => (
                STATUS_BAD_REQUEST,
                String::from_str("Participant quota exceeded"),
            ),
            AppError::ProjectVersionIdMismatch => (
                STATUS_BAD_REQUEST,
                String::from_str("Mismatch project version id"),
            ),
            AppError::DbError(err) => (STATUS_INTERNAL_SERVER_ERROR, err),
            AppError::FailedParsingVariable => (
                STATUS_BAD_REQUEST,
                String::from_str("Failed to parse variable"),
            ),
            AppError::UuidParseError(err) => (STATUS_INTERNAL_SERVER_ERROR, err),
            _ => (STATUS_INTERNAL_SERVER_ERROR, String::from_str("unexpected error has occurred")),
        };
        ErrorResponse { status, body: ErrorBody::Error(HttpError::new(message)) }
    }
}

} // verus!
