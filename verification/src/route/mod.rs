//! The answers the router gives by itself.

use crate::infrastructure::error_map::{add_message, ErrorMap};
use crate::infrastructure::errors::{
    ErrorBody, ErrorResponse, HttpError, STATUS_INTERNAL_SERVER_ERROR, STATUS_NOT_FOUND,
    STATUS_REQUEST_TIMEOUT,
};
use crate::text::{decimal, decimal_text};
use vstd::prelude::*;

verus! {

/// Seconds a request may take before it is given up.
pub const HTTP_TIMEOUT: u64 = 30;

/// The router's own answers.
pub struct AppRoute;

impl AppRoute {
    /// The answer to a request that no route matches: status 404 and one
    /// message under `message`.
    pub fn handle_404() -> (r: ErrorResponse)
        ensures
            r.status == STATUS_NOT_FOUND,
            r.body matches ErrorBody::Errors(m) && m@ == add_message(
                Seq::empty(),
                "message"@,
                "The requested resource does not exist on this server!"@,
            ) && m.well_formed(),
    {
        let mut errors = ErrorMap::new();
        errors.insert(
            "message",
            String::from_str("The requested resource does not exist on this server!"),
        );
        ErrorResponse { status: STATUS_NOT_FOUND, body: ErrorBody::Errors(errors) }
    }

    /// The message for a request that took too long.
    pub open spec fn timeout_message() -> Seq<char> {
        "request took longer than the configured "@ + decimal(HTTP_TIMEOUT as nat)
            + " second timeout"@
    }

    /// The answer to a failure of the layers around the handlers. `elapsed`
    /// says whether the time limit ran out; `detail` is the failure as text.
    pub fn handle_timeout_error(elapsed: bool, detail: &str) -> (r: ErrorResponse)
        ensures
            r.status == (if elapsed {
                STATUS_REQUEST_TIMEOUT
            } else {
                STATUS_INTERNAL_SERVER_ERROR
            }),
            r.body matches ErrorBody::Error(h) && h.error@ == (if elapsed {
                Self::timeout_message()
            } else {
                "unhandled internal error: "@ + detail@
            }),
    {
        if elapsed {
            let mut message = String::from_str("request took longer than the configured ");
            message.append(decimal_text(HTTP_TIMEOUT).as_str());
            message.append(" second timeout");
            ErrorResponse {
                status: STATUS_REQUEST_TIMEOUT,
                body: ErrorBody::Error(HttpError::new(message)),
            }
        } else {
            let mut message = String::from_str("unhandled internal error: ");
            message.append(detail);
            ErrorResponse {
                status: STATUS_INTERNAL_SERVER_ERROR,
                body: ErrorBody::Error(HttpError::new(message)),
            }
        }
    }
}

} // verus!
