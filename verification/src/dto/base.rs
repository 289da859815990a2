use vstd::prelude::*;

verus! {

/// Details of a failure carried by a [`BaseResponse`].
#[derive(Debug, Clone, PartialEq, Eq)]
pub struct ErrorDetails {
    pub message: String,
    pub code: Option<u16>,
}

/// Envelope of a response body: either a payload or error details, never both.
#[derive(Debug, Clone, PartialEq, Eq)]
pub struct BaseResponse<T = ()> {
    pub data: Option<T>,
    pub error: Option<ErrorDetails>,
}

impl<T> BaseResponse<T> {
    /// True when exactly one of `data` and `error` is present.
    pub open spec fn well_formed(&self) -> bool {
        self.data is Some <==> self.error is None
    }

    /// Envelope of a successful response: the payload and no error.
    pub fn success(data: T) -> (r: Self)
        ensures
            r.data == Some(data),
            r.error is None,
            r.well_formed(),
    {
        BaseResponse { data: Some(data), error: None }
    }

    /// Envelope of a failed response: the error details and no payload.
    pub fn error(message: String, code: Option<u16>) -> (r: Self)
        ensures
            r.data is None,
            r.error == Some(ErrorDetails { message, code }),
            r.well_formed(),
    {
        BaseResponse { data: None, error: Some(ErrorDetails { message, code }) }
    }
}

} // verus!
