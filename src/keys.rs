//! The key-value handlers: read and write one key.
use vstd::prelude::*;
use crate::status::Status;
use crate::store::{lookup, Contents, Store};

verus! {

/// What a read of `key` answers: the payload, or `NotFound`.
pub open spec fn get_outcome(m: Contents, key: Seq<char>) -> Result<Seq<u8>, Status> {
    match lookup(m, key) {
        Some(v) => Ok(v),
        None => Err(Status::NotFound),
    }
}

/// A write of `body` under `key`, with a body ceiling of `max_body` bytes:
/// the new contents and the answer. An oversized body changes nothing.
pub open spec fn set_outcome(m: Contents, key: Seq<char>, body: Seq<u8>, max_body: nat) -> (
    Contents,
    Status,
) {
    if body.len() > max_body {
        (m, Status::PayloadTooLarge)
    } else {
        (m.insert(key, body), Status::Success)
    }
}

/// The view of a read's answer.
pub open spec fn payload_view(r: Result<Vec<u8>, Status>) -> Result<Seq<u8>, Status> {
    match r {
        Ok(v) => Ok(v@),
        Err(e) => Err(e),
    }
}

/// Reads `key`: its payload, or `NotFound`.
pub fn kv_get(store: &Store, key: &str) -> (r: Result<Vec<u8>, Status>)
    ensures
        payload_view(r) == get_outcome(store@, key@),
{
    match store.get(key) {
        Some(v) => Ok(v),
        None => Err(Status::NotFound),
    }
}

/// Writes `body` under `key` when it fits under `max_body` bytes; answers
/// `PayloadTooLarge` and leaves the store as it was otherwise.
pub fn kv_set(store: &mut Store, key: String, body: Vec<u8>, max_body: usize) -> (r: Status)
    ensures
        (final(store)@, r) == set_outcome(old(store)@, key@, body@, max_body as nat),
{
    if body.len() > max_body {
        Status::PayloadTooLarge
    } else {
        store.set(key, body);
        Status::Success
    }
}

} // verus!
