//! The administrative handlers: bulk and single-key deletion, each gated by
//! the bearer credential.
use vstd::prelude::*;
use crate::auth::{authorized, check_admin};
use crate::status::Status;
use crate::store::{Contents, Store};

verus! {

/// Clearing every key: the new contents and the answer. Without a valid
/// credential nothing changes.
pub open spec fn clear_keys_outcome(m: Contents, authorized: bool) -> (Contents, Status) {
    if authorized {
        (Contents::empty(), Status::Success)
    } else {
        (m, Status::Unauthorized)
    }
}

/// Clearing one key: the new contents and the answer. Removing an absent key
/// succeeds too; without a valid credential nothing changes.
pub open spec fn clear_key_outcome(m: Contents, key: Seq<char>, authorized: bool) -> (
    Contents,
    Status,
) {
    if authorized {
        (m.remove(key), Status::Success)
    } else {
        (m, Status::Unauthorized)
    }
}

/// Empties the store when `auth` is `Bearer <token>`.
pub fn clear_keys(store: &mut Store, auth: Option<&[u8]>, token: &[u8]) -> (r: Status)
    ensures
        (final(store)@, r) == clear_keys_outcome(old(store)@, authorized(auth, token@)),
{
    if check_admin(auth, token) {
        store.clear_all();
        Status::Success
    } else {
        Status::Unauthorized
    }
}

/// Removes `key` from the store when `auth` is `Bearer <token>`.
pub fn clear_key(store: &mut Store, key: &str, auth: Option<&[u8]>, token: &[u8]) -> (r: Status)
    ensures
        (final(store)@, r) == clear_key_outcome(old(store)@, key@, authorized(auth, token@)),
{
    if check_admin(auth, token) {
        store.delete(key);
        Status::Success
    } else {
        Status::Unauthorized
    }
}

} // verus!
