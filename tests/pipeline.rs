use kv_store::auth::{bearer_matches, check_admin};
use kv_store::pipeline::{handle_error, Fault, Limits};
use kv_store::status::Status;

#[test]
fn elapsed_becomes_request_timeout() {
    let (s, m) = handle_error(Fault::Elapsed);
    assert_eq!(s, Status::RequestTimeout);
    assert_eq!(s.code(), 408);
    assert_eq!(m, "Request timed out");
}

#[test]
fn overloaded_becomes_service_unavailable() {
    let (s, m) = handle_error(Fault::Overloaded);
    assert_eq!(s, Status::ServiceUnavailable);
    assert_eq!(s.code(), 503);
    assert_eq!(m, "Service overloaded, try again later");
}

#[test]
fn other_fault_becomes_internal_error() {
    let (s, m) = handle_error(Fault::Other("boom".to_string()));
    assert_eq!(s, Status::InternalError);
    assert_eq!(s.code(), 500);
    assert_eq!(m, "Unhandled error: boom");
}

#[test]
fn standard_limits() {
    let l = Limits::standard();
    assert_eq!(l.concurrency_limit, 1024);
    assert_eq!(l.timeout_secs, 10);
    assert_eq!(l.max_body, 5120000);
}

#[test]
fn bearer_header_must_match_exactly() {
    assert!(bearer_matches(b"Bearer secret", b"secret"));
    assert!(bearer_matches(b"Bearer ", b""));
    assert!(!bearer_matches(b"Bearer", b""));
    assert!(!bearer_matches(b"Bearer secreT", b"secret"));
    assert!(!bearer_matches(b"Basic secret", b"secret"));
    assert!(!bearer_matches(b"", b"secret"));
}

#[test]
fn missing_header_is_not_admin() {
    assert!(!check_admin(None, b"secret"));
    assert!(check_admin(Some(b"Bearer secret"), b"secret"));
}

#[test]
fn remaining_status_codes() {
    assert_eq!(Status::PayloadTooLarge.code(), 413);
    assert_eq!(Status::Unauthorized.code(), 401);
}
