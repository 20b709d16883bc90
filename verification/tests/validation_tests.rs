use manifest::account::{
    validate_account, validate_token_program, AccountRecord, RequiredCapabilities,
};
use manifest::errors::LifecycleError;

fn key(tag: u8) -> Vec<u8> {
    vec![tag; 32]
}

fn record(tag: u8, owner_tag: u8, is_signer: bool, is_writable: bool, data_len: u64) -> AccountRecord {
    AccountRecord {
        key: key(tag),
        owner: key(owner_tag),
        is_signer,
        is_writable,
        data_len,
    }
}

#[test]
fn test_validate_writable_payer() {
    let caps = RequiredCapabilities::writable_payer();
    let ok = validate_account(&record(1, 0, true, true, 0), &caps).unwrap();
    assert_eq!(ok.record.key, key(1));

    let not_writable = validate_account(&record(1, 0, true, false, 0), &caps);
    assert_eq!(not_writable.unwrap_err(), LifecycleError::NotWritable);

    let not_signer = validate_account(&record(1, 0, false, true, 0), &caps);
    assert_eq!(not_signer.unwrap_err(), LifecycleError::MissingSignature);

    // The writability check runs before the signature check.
    let neither = validate_account(&record(1, 0, false, false, 0), &caps);
    assert_eq!(neither.unwrap_err(), LifecycleError::NotWritable);
}

#[test]
fn test_validate_signer() {
    let caps = RequiredCapabilities::signer();
    assert!(validate_account(&record(1, 0, true, false, 0), &caps).is_ok());
    let err = validate_account(&record(1, 0, false, false, 0), &caps);
    assert_eq!(err.unwrap_err(), LifecycleError::MissingSignature);
}

#[test]
fn test_validate_pinned_program() {
    let caps = RequiredCapabilities::pinned_program(key(7));
    assert!(validate_account(&record(7, 0, false, false, 0), &caps).is_ok());
    let err = validate_account(&record(8, 0, false, false, 0), &caps);
    assert_eq!(err.unwrap_err(), LifecycleError::WrongProgramIdentity);
}

#[test]
fn test_validate_owned_by() {
    let caps = RequiredCapabilities::owned_by(key(9));
    assert!(validate_account(&record(1, 9, false, false, 0), &caps).is_ok());
    let err = validate_account(&record(1, 5, false, false, 0), &caps);
    assert_eq!(err.unwrap_err(), LifecycleError::IllegalOwner);
}

#[test]
fn test_validate_uninitialized_account() {
    let system = 11u8;
    let caps = RequiredCapabilities::uninitialized_account(key(system));
    assert!(validate_account(&record(1, system, false, false, 0), &caps).is_ok());

    let holds_data = validate_account(&record(1, system, false, false, 10), &caps);
    assert_eq!(
        holds_data.unwrap_err(),
        LifecycleError::InvalidOrMismatchedAccountData
    );

    let wrong_owner = validate_account(&record(1, 12, false, false, 0), &caps);
    assert_eq!(wrong_owner.unwrap_err(), LifecycleError::IllegalOwner);
}

#[test]
fn test_validate_unchecked_accepts_anything() {
    let caps = RequiredCapabilities::unchecked();
    let view = validate_account(&record(200, 201, false, false, 12345), &caps).unwrap();
    assert_eq!(view.record.key, key(200));
    assert_eq!(view.record.owner, key(201));
    assert_eq!(view.record.data_len, 12345);
}

#[test]
fn test_validate_token_program() {
    let token = key(40);
    let token_2022 = key(41);
    assert!(validate_token_program(&record(40, 0, false, false, 0), &token, &token_2022).is_ok());
    assert!(validate_token_program(&record(41, 0, false, false, 0), &token, &token_2022).is_ok());
    let err = validate_token_program(&record(42, 0, false, false, 0), &token, &token_2022);
    assert_eq!(err.unwrap_err(), LifecycleError::WrongProgramIdentity);
}
