use kv_store::admin::{clear_key, clear_keys};
use kv_store::keys::{kv_get, kv_set};
use kv_store::status::Status;
use kv_store::store::Store;

const TOKEN: &[u8] = b"secret";

#[test]
fn get_unset_key_is_not_found() {
    let s = Store::new();
    let r = kv_get(&s, "never");
    assert_eq!(r, Err(Status::NotFound));
    assert_eq!(Status::NotFound.code(), 404);
}

#[test]
fn set_then_get_returns_hello() {
    let mut s = Store::new();
    assert_eq!(kv_set(&mut s, "a".to_string(), b"hello".to_vec(), 5120000), Status::Success);
    assert_eq!(kv_get(&s, "a"), Ok(b"hello".to_vec()));
    assert_eq!(Status::Success.code(), 200);
}

#[test]
fn value_survives_unrelated_writes() {
    let mut s = Store::new();
    kv_set(&mut s, "a".to_string(), b"hello".to_vec(), 100);
    kv_set(&mut s, "b".to_string(), b"other".to_vec(), 100);
    clear_key(&mut s, "c", Some(b"Bearer secret"), TOKEN);
    assert_eq!(kv_get(&s, "a"), Ok(b"hello".to_vec()));
}

#[test]
fn oversized_body_is_rejected_and_store_unchanged() {
    let mut s = Store::new();
    kv_set(&mut s, "a".to_string(), b"old".to_vec(), 4);
    let r = kv_set(&mut s, "a".to_string(), b"too long".to_vec(), 4);
    assert_eq!(r, Status::PayloadTooLarge);
    assert_eq!(r.code(), 413);
    assert_eq!(kv_get(&s, "a"), Ok(b"old".to_vec()));
    assert_eq!(s.len(), 1);
}

#[test]
fn body_at_ceiling_is_accepted() {
    let mut s = Store::new();
    let r = kv_set(&mut s, "a".to_string(), vec![7u8; 4], 4);
    assert_eq!(r, Status::Success);
    assert_eq!(kv_get(&s, "a"), Ok(vec![7u8; 4]));
}

#[test]
fn admin_delete_key_with_token() {
    let mut s = Store::new();
    kv_set(&mut s, "a".to_string(), b"hello".to_vec(), 100);
    let r = clear_key(&mut s, "a", Some(b"Bearer secret"), TOKEN);
    assert_eq!(r, Status::Success);
    assert_eq!(kv_get(&s, "a"), Err(Status::NotFound));
}

#[test]
fn admin_delete_twice_is_idempotent() {
    let mut s = Store::new();
    kv_set(&mut s, "a".to_string(), b"hello".to_vec(), 100);
    assert_eq!(clear_key(&mut s, "a", Some(b"Bearer secret"), TOKEN), Status::Success);
    assert_eq!(kv_get(&s, "a"), Err(Status::NotFound));
    assert_eq!(clear_key(&mut s, "a", Some(b"Bearer secret"), TOKEN), Status::Success);
    assert_eq!(kv_get(&s, "a"), Err(Status::NotFound));
}

#[test]
fn admin_clear_with_token() {
    let mut s = Store::new();
    kv_set(&mut s, "a".to_string(), b"1".to_vec(), 100);
    kv_set(&mut s, "b".to_string(), b"2".to_vec(), 100);
    let r = clear_keys(&mut s, Some(b"Bearer secret"), TOKEN);
    assert_eq!(r, Status::Success);
    assert_eq!(kv_get(&s, "a"), Err(Status::NotFound));
    assert_eq!(kv_get(&s, "b"), Err(Status::NotFound));
}

#[test]
fn admin_clear_without_token_is_unauthorized() {
    let mut s = Store::new();
    kv_set(&mut s, "a".to_string(), b"1".to_vec(), 100);
    let r = clear_keys(&mut s, None, TOKEN);
    assert_eq!(r, Status::Unauthorized);
    assert_eq!(r.code(), 401);
    assert_eq!(kv_get(&s, "a"), Ok(b"1".to_vec()));
}

#[test]
fn admin_clear_with_wrong_token_is_unauthorized() {
    let mut s = Store::new();
    kv_set(&mut s, "a".to_string(), b"1".to_vec(), 100);
    assert_eq!(clear_keys(&mut s, Some(b"Bearer wrong"), TOKEN), Status::Unauthorized);
    assert_eq!(clear_keys(&mut s, Some(b"secret"), TOKEN), Status::Unauthorized);
    assert_eq!(clear_keys(&mut s, Some(b"bearer secret"), TOKEN), Status::Unauthorized);
    assert_eq!(clear_keys(&mut s, Some(b"Bearer secret "), TOKEN), Status::Unauthorized);
    assert_eq!(kv_get(&s, "a"), Ok(b"1".to_vec()));
}

#[test]
fn admin_delete_key_without_token_is_unauthorized() {
    let mut s = Store::new();
    kv_set(&mut s, "a".to_string(), b"1".to_vec(), 100);
    assert_eq!(clear_key(&mut s, "a", None, TOKEN), Status::Unauthorized);
    assert_eq!(clear_key(&mut s, "a", Some(b"Bearer secre"), TOKEN), Status::Unauthorized);
    assert_eq!(kv_get(&s, "a"), Ok(b"1".to_vec()));
}
