//! The administrative credential check: a single static bearer token.
use vstd::prelude::*;

verus! {

/// The bytes of `Bearer ` (with its trailing space).
pub open spec fn bearer_prefix() -> Seq<u8> {
    seq![66u8, 101u8, 97u8, 114u8, 101u8, 114u8, 32u8]
}

/// A presented `Authorization` value is valid exactly when it reads
/// `Bearer ` followed by the configured token, byte for byte.
pub open spec fn is_valid_bearer(header: Seq<u8>, token: Seq<u8>) -> bool {
    header == bearer_prefix() + token
}

/// Whether a request that presented `header` (or none) may act as admin.
pub open spec fn authorized(header: Option<&[u8]>, token: Seq<u8>) -> bool {
    match header {
        Some(h) => is_valid_bearer(h@, token),
        None => false,
    }
}

/// Compares a presented `Authorization` value with `Bearer <token>`.
pub fn bearer_matches(header: &[u8], token: &[u8]) -> (r: bool)
    ensures
        r == is_valid_bearer(header@, token@),
{
    let prefix: [u8; 7] = [66u8, 101u8, 97u8, 114u8, 101u8, 114u8, 32u8];
    let ghost expected = bearer_prefix() + token@;
    assert(prefix@ =~= bearer_prefix());
    if header.len() < 7 || header.len() - 7 != token.len() {
        return false;
    }
    let mut i: usize = 0;
    while i < header.len()
        invariant
            header@.len() == expected.len(),
            expected == bearer_prefix() + token@,
            prefix@ == bearer_prefix(),
            0 <= i <= header@.len(),
            forall|j: int| 0 <= j < i ==> header@[j] == expected[j],
        decreases header@.len() - i,
    {
        let want: u8 = if i < 7 {
            prefix[i]
        } else {
            token[i - 7]
        };
        if header[i] != want {
            return false;
        }
        i = i + 1;
    }
    assert(header@ =~= expected);
    true
}

/// Whether a request may act as admin: it presented a header, and that
/// header is `Bearer <token>`.
pub fn check_admin(header: Option<&[u8]>, token: &[u8]) -> (r: bool)
    ensures
        r == authorized(header, token@),
{
    match header {
        Some(h) => bearer_matches(h, token),
        None => false,
    }
}

} // verus!
