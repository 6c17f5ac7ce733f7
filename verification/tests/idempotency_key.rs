use cr_api::idempotency_key::{IdempotencyKey, IdempotencyKeyError};

#[test]
fn empty_key_is_rejected() {
    assert_eq!(
        IdempotencyKey::try_from(String::new()).unwrap_err(),
        IdempotencyKeyError::Empty
    );
}

#[test]
fn key_of_length_49_is_accepted() {
    let key = "a".repeat(49);
    let parsed = IdempotencyKey::try_from(key.clone()).unwrap();
    assert_eq!(parsed.as_ref(), key);
}

#[test]
fn key_of_length_50_is_rejected() {
    let key = "a".repeat(50);
    assert_eq!(
        IdempotencyKey::try_from(key).unwrap_err(),
        IdempotencyKeyError::TooLong
    );
}

#[test]
fn key_survives_the_round_trip() {
    let parsed = IdempotencyKey::try_from("abc123".to_string()).unwrap();
    assert_eq!(parsed.as_ref(), "abc123");
    assert_eq!(parsed.into_string(), "abc123");
}
