//! The client-facing outcome of a request.
use vstd::prelude::*;

verus! {

/// The outcomes that the store, its handlers and its pipeline hand back.
#[derive(PartialEq, Eq, Structural, Clone, Copy, Debug)]
pub enum Status {
    /// The request was served.
    Success,
    /// The requested key is absent.
    NotFound,
    /// The administrative credential is missing or wrong.
    Unauthorized,
    /// The request ran past its deadline.
    RequestTimeout,
    /// The request body exceeds the configured ceiling.
    PayloadTooLarge,
    /// The admission ceiling was exceeded.
    ServiceUnavailable,
    /// Any unanticipated failure.
    InternalError,
}

/// The HTTP status code of each outcome.
pub open spec fn status_code(s: Status) -> u16 {
    match s {
        Status::Success => 200,
        Status::NotFound => 404,
        Status::Unauthorized => 401,
        Status::RequestTimeout => 408,
        Status::PayloadTooLarge => 413,
        Status::ServiceUnavailable => 503,
        Status::InternalError => 500,
    }
}

impl Status {
    /// The HTTP status code of this outcome.
    pub fn code(&self) -> (c: u16)
        ensures
            c == status_code(*self),
    {
        match self {
            Status::Success => 200,
            Status::NotFound => 404,
            Status::Unauthorized => 401,
            Status::RequestTimeout => 408,
            Status::PayloadTooLarge => 413,
            Status::ServiceUnavailable => 503,
            Status::InternalError => 500,
        }
    }
}

} // verus!
