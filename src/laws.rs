//! Laws of the store and its handlers, over the models that the handlers'
//! contracts use.
use vstd::prelude::*;
use crate::admin::{clear_key_outcome, clear_keys_outcome};
use crate::keys::{get_outcome, set_outcome};
use crate::status::Status;
use crate::store::Contents;

verus! {

/// One completed mutation of the store.
pub enum Mutation {
    Put(Seq<char>, Seq<u8>),
    Remove(Seq<char>),
    ClearAll,
}

/// The contents after one mutation, as `Store::set`, `Store::delete` and
/// `Store::clear_all` state it.
pub open spec fn apply(m: Contents, op: Mutation) -> Contents {
    match op {
        Mutation::Put(k, v) => m.insert(k, v),
        Mutation::Remove(k) => m.remove(k),
        Mutation::ClearAll => Contents::empty(),
    }
}

/// The contents after a run of mutations, in order.
pub open spec fn apply_all(m: Contents, ops: Seq<Mutation>) -> Contents
    decreases ops.len(),
{
    if ops.len() == 0 {
        m
    } else {
        apply(apply_all(m, ops.drop_last()), ops.last())
    }
}

/// Whether a mutation may change what `key` maps to.
pub open spec fn touches(op: Mutation, key: Seq<char>) -> bool {
    match op {
        Mutation::Put(k, _) => k == key,
        Mutation::Remove(k) => k == key,
        Mutation::ClearAll => true,
    }
}

/// Whether a mutation writes `key`.
pub open spec fn writes(op: Mutation, key: Seq<char>) -> bool {
    match op {
        Mutation::Put(k, _) => k == key,
        _ => false,
    }
}

/// A key that no mutation has written since the store was created reads as
/// `NotFound`.
pub proof fn law_unset_key_not_found(key: Seq<char>, ops: Seq<Mutation>)
    requires
        forall|i: int| 0 <= i < ops.len() ==> !writes(#[trigger] ops[i], key),
    ensures
        get_outcome(apply_all(Contents::empty(), ops), key) == Err::<Seq<u8>, Status>(
            Status::NotFound,
        ),
    decreases ops.len(),
{
    if ops.len() > 0 {
        let prefix = ops.drop_last();
        assert forall|i: int| 0 <= i < prefix.len() implies !writes(#[trigger] prefix[i], key) by {
            assert(prefix[i] == ops[i]);
        }
        law_unset_key_not_found(key, prefix);
        assert(!writes(ops[ops.len() - 1], key));
    }
}

/// After a write of `value` under `key` succeeds, reading `key` yields
/// exactly `value` until a later mutation sets or deletes `key` or clears
/// the store.
pub proof fn law_read_after_write(
    m: Contents,
    key: Seq<char>,
    value: Seq<u8>,
    max_body: nat,
    ops: Seq<Mutation>,
)
    requires
        set_outcome(m, key, value, max_body).1 == Status::Success,
        forall|i: int| 0 <= i < ops.len() ==> !touches(#[trigger] ops[i], key),
    ensures
        get_outcome(apply_all(set_outcome(m, key, value, max_body).0, ops), key) == Ok::<
            Seq<u8>,
            Status,
        >(value),
    decreases ops.len(),
{
    if ops.len() > 0 {
        let prefix = ops.drop_last();
        assert forall|i: int| 0 <= i < prefix.len() implies !touches(#[trigger] prefix[i], key) by {
            assert(prefix[i] == ops[i]);
        }
        law_read_after_write(m, key, value, max_body, prefix);
        assert(!touches(ops[ops.len() - 1], key));
    }
}

/// Deleting a key twice in a row leaves it absent both times, the second
/// delete changes nothing, and neither fails.
pub proof fn law_delete_idempotent(m: Contents, key: Seq<char>)
    ensures
        ({
            let (m1, s1) = clear_key_outcome(m, key, true);
            let (m2, s2) = clear_key_outcome(m1, key, true);
            &&& s1 == Status::Success
            &&& s2 == Status::Success
            &&& m2 == m1
            &&& get_outcome(m1, key) == Err::<Seq<u8>, Status>(Status::NotFound)
            &&& get_outcome(m2, key) == Err::<Seq<u8>, Status>(Status::NotFound)
        }),
{
    let m1 = m.remove(key);
    assert(m1.remove(key) =~= m1);
}

/// After the store is cleared, every key reads as `NotFound`.
pub proof fn law_clear_forgets_every_key(m: Contents, key: Seq<char>)
    ensures
        clear_keys_outcome(m, true).1 == Status::Success,
        get_outcome(clear_keys_outcome(m, true).0, key) == Err::<Seq<u8>, Status>(
            Status::NotFound,
        ),
{
}

/// Without a valid credential, both administrative deletions answer
/// `Unauthorized` and leave the store unchanged.
pub proof fn law_unauthorized_admin_changes_nothing(m: Contents, key: Seq<char>)
    ensures
        clear_keys_outcome(m, false) == (m, Status::Unauthorized),
        clear_key_outcome(m, key, false) == (m, Status::Unauthorized),
{
}

/// Each mutating handler leaves the store either exactly as it found it or
/// with its whole mutation applied: there is no partial outcome.
pub proof fn law_handlers_all_or_nothing(
    m: Contents,
    key: Seq<char>,
    body: Seq<u8>,
    max_body: nat,
    authorized: bool,
)
    ensures
        set_outcome(m, key, body, max_body).0 == m || set_outcome(m, key, body, max_body).0
            == apply(m, Mutation::Put(key, body)),
        clear_key_outcome(m, key, authorized).0 == m || clear_key_outcome(m, key, authorized).0
            == apply(m, Mutation::Remove(key)),
        clear_keys_outcome(m, authorized).0 == m || clear_keys_outcome(m, authorized).0 == apply(
            m,
            Mutation::ClearAll,
        ),
{
}

} // verus!
