//! The resilience pipeline's settings, and the translation of its internal
//! signals into client-facing answers.
use vstd::prelude::*;
use vstd::string::StringExecFns;
use crate::status::Status;

verus! {

/// The most requests handled at once.
pub const CONCURRENCY_LIMIT: usize = 1024;

/// The per-request deadline, in seconds.
pub const TIMEOUT_SECS: u64 = 10;

/// The largest accepted write payload, in bytes.
pub const MAX_BODY_BYTES: usize = 5120000;

/// The admission, deadline and body limits that wrap every route.
#[derive(Clone, Copy, Debug, PartialEq, Eq, Structural)]
pub struct Limits {
    pub concurrency_limit: usize,
    pub timeout_secs: u64,
    pub max_body: usize,
}

impl Limits {
    /// The limits the service runs with unless configured otherwise.
    pub fn standard() -> (l: Limits)
        ensures
            l.concurrency_limit == CONCURRENCY_LIMIT,
            l.timeout_secs == TIMEOUT_SECS,
            l.max_body == MAX_BODY_BYTES,
    {
        Limits {
            concurrency_limit: CONCURRENCY_LIMIT,
            timeout_secs: TIMEOUT_SECS,
            max_body: MAX_BODY_BYTES,
        }
    }
}

/// A signal raised inside the pipeline while a request was handled.
#[derive(Debug)]
pub enum Fault {
    /// The request ran past its deadline.
    Elapsed,
    /// The admission ceiling was exceeded.
    Overloaded,
    /// Any other failure, with its description.
    Other(String),
}

/// The answer to a fault: its status and the message sent in the body.
pub open spec fn fault_answer(f: Fault) -> (Status, Seq<char>) {
    match f {
        Fault::Elapsed => (Status::RequestTimeout, "Request timed out"@),
        Fault::Overloaded => (Status::ServiceUnavailable, "Service overloaded, try again later"@),
        Fault::Other(m) => (Status::InternalError, "Unhandled error: "@ + m@),
    }
}

/// Translates a pipeline fault into the status and message sent back.
pub fn handle_error(fault: Fault) -> (r: (Status, String))
    ensures
        (r.0, r.1@) == fault_answer(fault),
{
    match fault {
        Fault::Elapsed => (Status::RequestTimeout, String::from_str("Request timed out")),
        Fault::Overloaded => (
            Status::ServiceUnavailable,
            String::from_str("Service overloaded, try again later"),
        ),
        Fault::Other(m) => (
            Status::InternalError,
            String::from_str("Unhandled error: ").concat(m.as_str()),
        ),
    }
}

} // verus!
