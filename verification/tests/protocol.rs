//! The decisions of the store, on answers given by hand.

use credential_store::protocol::{
    after_create, after_lookup, check_identity, present_or_absent, Step,
};
use credential_store::StoreError;

fn too_long() -> keyring::Error {
    keyring::Error::TooLong("user".to_string(), 20)
}

#[test]
fn identity_with_both_parts_is_accepted() {
    assert!(check_identity("myapp", "alice").is_ok());
    assert!(check_identity("a", "b").is_ok());
    assert!(check_identity(" ", "\t").is_ok());
}

#[test]
fn identity_with_an_empty_part_is_refused() {
    assert!(matches!(check_identity("", "alice"), Err(StoreError::InvalidIdentity)));
    assert!(matches!(check_identity("myapp", ""), Err(StoreError::InvalidIdentity)));
    assert!(matches!(check_identity("", ""), Err(StoreError::InvalidIdentity)));
}

#[test]
fn found_value_is_present() {
    let looked_up = present_or_absent(Ok("hunter2".to_string()));
    assert!(matches!(looked_up, Ok(Some(ref p)) if p == "hunter2"));
}

#[test]
fn not_found_is_absent() {
    let looked_up = present_or_absent::<String>(Err(StoreError::NotFound));
    assert!(matches!(looked_up, Ok(None)));
}

#[test]
fn other_failures_stay_failures() {
    let looked_up = present_or_absent::<Vec<u8>>(Err(StoreError::Backend(too_long())));
    assert!(matches!(
        looked_up,
        Err(StoreError::Backend(keyring::Error::TooLong(ref name, 20))) if name == "user"
    ));
    let looked_up = present_or_absent::<Vec<u8>>(Err(StoreError::InvalidIdentity));
    assert!(matches!(looked_up, Err(StoreError::InvalidIdentity)));
}

#[test]
fn existing_value_ends_get_or_set() {
    let step = after_lookup(Ok(Some(vec![1u8, 2])));
    assert!(matches!(step, Step::Return(Ok(ref v)) if v == &[1u8, 2]));
}

#[test]
fn absence_asks_for_the_write() {
    let step = after_lookup::<String>(Ok(None));
    assert!(matches!(step, Step::Create));
}

#[test]
fn failed_lookup_ends_get_or_set() {
    let step = after_lookup::<String>(Err(StoreError::Backend(too_long())));
    assert!(matches!(step, Step::Return(Err(StoreError::Backend(keyring::Error::TooLong(_, 20))))));
    let step = after_lookup::<String>(Err(StoreError::InvalidIdentity));
    assert!(matches!(step, Step::Return(Err(StoreError::InvalidIdentity))));
}

#[test]
fn written_fallback_is_returned() {
    let result = after_create(Ok(()), "fallback1".to_string());
    assert!(matches!(result, Ok(ref v) if v == "fallback1"));
}

#[test]
fn failed_write_is_returned_in_place_of_the_fallback() {
    let result = after_create(Err(StoreError::Backend(too_long())), vec![1u8]);
    assert!(matches!(result, Err(StoreError::Backend(keyring::Error::TooLong(_, 20)))));
    let result = after_create(Err(StoreError::NotFound), vec![1u8]);
    assert!(matches!(result, Err(StoreError::NotFound)));
}

#[test]
fn absence_is_classified_as_not_found() {
    assert!(matches!(
        StoreError::classify(true, keyring::Error::NoEntry),
        StoreError::NotFound
    ));
}

#[test]
fn other_reports_are_kept_whole() {
    match StoreError::classify(false, too_long()) {
        StoreError::Backend(keyring::Error::TooLong(name, limit)) => {
            assert_eq!(name, "user");
            assert_eq!(limit, 20);
        }
        other => panic!("expected the report itself, got {other:?}"),
    }
}
