//! Extraction in two phases: the request data is parsed into a shape, then
//! the shape is validated. Either a fully valid value comes out or an error.

use crate::infrastructure::error_map::ErrorMap;
use crate::infrastructure::errors::{error_map_of, AppError};
use crate::validation::Validate;
use vstd::prelude::*;

verus! {

/// A value read from a JSON body that passed validation.
#[derive(Debug, Clone, Copy, Default)]
pub struct ValidatedJson<T>(pub T);

/// A value read from the query string that passed validation.
#[derive(Debug, Clone, Copy, Default)]
pub struct ValidatedQuery<T>(pub T);

/// A value read from the path that passed validation.
#[derive(Debug, Clone, Copy, Default)]
pub struct ValidatedPath<T>(pub T);

/// The error that reports every violation of `value`; holds where `value`
/// has violations.
pub open spec fn reports_violations<T: Validate>(error: AppError, value: T) -> bool {
    error matches AppError::UnprocessableEntity { errors } && errors@ == error_map_of(
        value.violations(),
    ) && errors.well_formed()
}

/// Hands `value` on if it breaks no rule; else fails with the map of all
/// violations.
pub fn validated<T: Validate>(value: T) -> (r: Result<T, AppError>)
    ensures
        match r {
            Ok(v) => v == value && value.violations().len() == 0,
            Err(e) => value.violations().len() > 0 && reports_violations(e, value),
        },
{
    match value.validate() {
        Ok(_) => Ok(value),
        Err(found) => Err(
            AppError::UnprocessableEntity { errors: ErrorMap::from_violations(&found) },
        ),
    }
}

impl<T: Validate> ValidatedJson<T> {
    /// Second phase of the extraction of a body. `parsed` is the outcome of
    /// parsing: the shape, or the diagnostic of the parser.
    pub fn from_request(parsed: Result<T, String>) -> (r: Result<Self, AppError>)
        ensures
            match parsed {
                Err(diagnostic) => r == Err::<Self, AppError>(
                    AppError::AxumJsonRejection(diagnostic),
                ),
                Ok(value) => match r {
                    Ok(out) => out.0 == value && value.violations().len() == 0,
                    Err(e) => value.violations().len() > 0 && reports_violations(e, value),
                },
            },
    {
        match parsed {
            Err(diagnostic) => Err(AppError::AxumJsonRejection(diagnostic)),
            Ok(value) => match validated(value) {
                Ok(value) => Ok(ValidatedJson(value)),
                Err(e) => Err(e),
            },
        }
    }
}

impl<T: Validate> ValidatedQuery<T> {
    /// Second phase of the extraction of query parameters. `parsed` is the
    /// outcome of parsing: the shape, or the diagnostic of the parser.
    pub fn from_request_parts(parsed: Result<T, String>) -> (r: Result<Self, AppError>)
        ensures
            match parsed {
                Err(diagnostic) => r == Err::<Self, AppError>(
                    AppError::AxumQueryRejection(diagnostic),
                ),
                Ok(value) => match r {
                    Ok(out) => out.0 == value && value.violations().len() == 0,
                    Err(e) => value.violations().len() > 0 && reports_violations(e, value),
                },
            },
    {
        match parsed {
            Err(diagnostic) => Err(AppError::AxumQueryRejection(diagnostic)),
            Ok(value) => match validated(value) {
                Ok(value) => Ok(ValidatedQuery(value)),
                Err(e) => Err(e),
            },
        }
    }
}

impl<T: Validate> ValidatedPath<T> {
    /// Second phase of the extraction of path parameters. `parsed` is the
    /// outcome of parsing: the shape, or the diagnostic of the parser.
    pub fn from_request_parts(parsed: Result<T, String>) -> (r: Result<Self, AppError>)
        ensures
            match parsed {
                Err(diagnostic) => r == Err::<Self, AppError>(
                    AppError::AxumPathRejection(diagnostic),
                ),
                Ok(value) => match r {
                    Ok(out) => out.0 == value && value.violations().len() == 0,
                    Err(e) => value.violations().len() > 0 && reports_violations(e, value),
                },
            },
    {
        match parsed {
            Err(diagnostic) => Err(AppError::AxumPathRejection(diagnostic)),
            Ok(value) => match validated(value) {
                Ok(value) => Ok(ValidatedPath(value)),
                Err(e) => Err(e),
            },
        }
    }
}

} // verus!
