use auth_service::error::{TwoFACodeStoreError, UserStoreError};
use auth_service::stores::{
    BannedTokenState, BannedTokenStore, HashmapBannedTokenStore, HashmapTwoFACodeStore,
    HashmapUserStore, TwoFACodeStore,
};
use auth_service::twofa::{LoginAttemptId, TwoFACode};
use auth_service::user::{Email, Password, User};

fn default_email() -> Email {
    Email::parse("email@email.com").unwrap()
}

#[test]
fn test_add_token_adds_user_and_token() {
    let token = "sometoken";
    let email = Email::parse("email@email.com").unwrap();

    let mut store = HashmapBannedTokenStore::default();
    store.add(&email, token);

    let result = store.verify(token);
    assert!(result.email().is_some());
}

#[test]
fn test_user_and_token_not_added() {
    let token = "sometoken";

    let store = HashmapBannedTokenStore::default();
    let result = store.verify(token);

    assert_eq!(result, BannedTokenState::Absent);
}

#[test]
fn banned_token_state_reports_owner() {
    let email = Email::parse("owner@email.com").unwrap();
    let mut store = HashmapBannedTokenStore::new();
    store.add(&email, "t1");
    let state = store.verify("t1");
    assert!(state.is_banned());
    assert!(!state.is_absent());
    assert_eq!(state.email().unwrap(), email);
    let other = store.verify("t2");
    assert!(other.is_absent());
    assert!(!other.is_banned());
    assert_eq!(other.email(), None);
}

#[test]
fn test_adds_code_to_store() {
    let email = default_email();
    let login_attempt_id = LoginAttemptId::default();
    let code = TwoFACode::default();

    let mut store = HashmapTwoFACodeStore::default();
    let result = store.add_code(email.to_owned(), login_attempt_id, code);

    assert!(result.is_ok());
}

#[test]
fn test_removes_code_from_store() {
    let email = default_email();
    let login_attempt_id = LoginAttemptId::default();
    let code = TwoFACode::default();

    let mut store = HashmapTwoFACodeStore::default();
    assert!(store.remove_code(&email).is_err());

    let _ = store.add_code(email.to_owned(), login_attempt_id, code);

    let result = store.remove_code(&email);
    assert!(result.is_ok());
}

#[test]
fn test_gets_code_from_store() {
    let email = default_email();
    let login_attempt_id = LoginAttemptId::default();
    let code = TwoFACode::default();

    let mut store = HashmapTwoFACodeStore::default();
    assert!(store.get_code(&email).is_err());

    let _ = store.add_code(email.to_owned(), login_attempt_id, code);

    let result = store.get_code(&email);
    assert!(result.is_ok());
}

#[test]
fn new_code_replaces_the_earlier_one() {
    let email = default_email();
    let first = LoginAttemptId::default();
    let second = LoginAttemptId::default();
    let mut store = HashmapTwoFACodeStore::new();
    store
        .add_code(email.clone(), first, TwoFACode::parse("111111".to_string()).unwrap())
        .unwrap();
    store
        .add_code(email.clone(), second.clone(), TwoFACode::parse("222222".to_string()).unwrap())
        .unwrap();
    let (id, code) = store.get_code(&email).unwrap();
    assert_eq!(id, second);
    assert_eq!(code.as_str(), "222222");
    assert!(store.remove_code(&email).is_ok());
    assert_eq!(store.get_code(&email).unwrap_err(), TwoFACodeStoreError::LoginAttemptIdNotFound);
    assert_eq!(store.remove_code(&email).unwrap_err(), TwoFACodeStoreError::LoginAttemptIdNotFound);
}

#[test]
fn test_add_user() {
    let mut store = HashmapUserStore::default();
    let user = User {
        email: Email::parse("some@email.com").unwrap(),
        password: Password::parse("password").unwrap(),
        requires_2fa: true,
    };
    let other_user = user.clone();

    let result = store.add_user(user);
    assert!(result.is_ok());

    let result = store.add_user(other_user);
    assert_eq!(result.err().unwrap(), UserStoreError::UserAlreadyExists)
}

#[test]
fn test_get_user() {
    let mut store = HashmapUserStore::default();
    let email = Email::parse("some@email.com").unwrap();
    let user = User {
        email: email.to_owned(),
        password: Password::parse("password").unwrap(),
        requires_2fa: true,
    };

    store.add_user(user.clone()).unwrap();
    assert_eq!(user, store.get_user(email).unwrap());
    assert_eq!(
        UserStoreError::UserNotFound,
        store
            .get_user(Email::parse("unknown@email.com").unwrap())
            .unwrap_err()
    );
}

#[test]
fn test_validate_user() {
    let mut store = HashmapUserStore::default();
    let email = Email::parse("some@email.com").unwrap();
    let password = Password::parse("password").unwrap();
    let user = User {
        email: email.to_owned(),
        password: password.to_owned(),
        requires_2fa: true,
    };
    store.add_user(user.clone()).unwrap();
    let result = store.validate_user(email.to_owned(), password.to_owned());
    assert!(result.is_ok());

    let error = store
        .validate_user(
            Email::parse("invalid@email.com").unwrap(),
            password.to_owned(),
        )
        .unwrap_err();
    assert_eq!(error, UserStoreError::UserNotFound);
}

#[test]
fn validate_user_rejects_wrong_password() {
    let mut store = HashmapUserStore::new();
    let email = Email::parse("some@email.com").unwrap();
    store
        .add_user(User::new(email.clone(), Password::parse("password").unwrap(), false))
        .unwrap();
    let error = store
        .validate_user(email, Password::parse("password2").unwrap())
        .unwrap_err();
    assert!(matches!(error, UserStoreError::InvalidCredentials(_)));
}

#[test]
fn failed_add_keeps_first_record() {
    let mut store = HashmapUserStore::new();
    let email = Email::parse("dup@email.com").unwrap();
    store
        .add_user(User::new(email.clone(), Password::parse("password1").unwrap(), false))
        .unwrap();
    let again = store.add_user(User::new(email.clone(), Password::parse("password2").unwrap(), true));
    assert_eq!(again.unwrap_err(), UserStoreError::UserAlreadyExists);
    let kept = store.get_user(email).unwrap();
    assert_eq!(kept.password.as_str(), "password1");
    assert!(!kept.requires_2fa);
}
