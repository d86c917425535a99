use auth_service::error::{AuthAPIError, UserStoreError};
use auth_service::token::encode_signed;
use hmac::Mac;
use auth_service::routes::{
    complete_login, login, login_with, logout, signup, verify_2fa, verify_token, ErrorResponse, LoginOutcome,
    LoginRequest, LoginResponse, SignupRequest, Verify2FARequest,
};
use auth_service::stores::{
    BannedTokenStore, HashmapBannedTokenStore, HashmapTwoFACodeStore, HashmapUserStore,
    TwoFACodeStore,
};
use auth_service::token::{TokenCodec, TOKEN_TTL_SECONDS};
use auth_service::twofa::{LoginAttemptId, TwoFACode};
use auth_service::user::Email;

const NOW: u64 = 1_700_000_000;

struct TestApp {
    users: HashmapUserStore,
    codes: HashmapTwoFACodeStore,
    banned: HashmapBannedTokenStore,
    codec: TokenCodec,
}

impl TestApp {
    fn new() -> Self {
        TestApp {
            users: HashmapUserStore::new(),
            codes: HashmapTwoFACodeStore::new(),
            banned: HashmapBannedTokenStore::new(),
            codec: TokenCodec::new("test secret".to_string(), TOKEN_TTL_SECONDS),
        }
    }

    fn signup(&mut self, email: &str, password: &str, requires_2fa: bool) -> Result<String, AuthAPIError> {
        let request = SignupRequest {
            email: email.to_string(),
            password: password.to_string(),
            requires_2fa,
        };
        signup(&mut self.users, &request).map(|r| r.message)
    }

    fn login(&mut self, email: &str, password: &str) -> Result<LoginOutcome, AuthAPIError> {
        let request = LoginRequest { email: email.to_string(), password: password.to_string() };
        login(&self.users, &mut self.codes, &self.codec, &request, NOW)
    }

    fn verify_2fa(&mut self, email: &str, id: &str, code: &str) -> Result<String, AuthAPIError> {
        let request = Verify2FARequest {
            email: email.to_string(),
            login_attempt_id: id.to_string(),
            two_fa_code: code.to_string(),
        };
        verify_2fa(&mut self.codes, &self.codec, &request, NOW)
    }

    fn logout(&mut self, token: Option<&str>) -> Result<(), AuthAPIError> {
        logout(&mut self.banned, &self.codec, token, NOW)
    }

    fn verify_token(&self, token: &str) -> Result<(), AuthAPIError> {
        verify_token(&self.banned, &self.codec, token, NOW)
    }

    fn stored_code(&self, email: &str) -> (LoginAttemptId, TwoFACode) {
        self.codes.get_code(&Email::parse(email).unwrap()).unwrap()
    }
}

fn status(r: &Result<impl Sized, AuthAPIError>) -> u16 {
    match r {
        Ok(_) => 200,
        Err(e) => e.status_code(),
    }
}

fn token_of(outcome: LoginOutcome) -> String {
    match outcome {
        LoginOutcome::Authenticated { token } => token,
        LoginOutcome::TwoFactorRequired(_) => panic!("expected a session token"),
    }
}

fn attempt_of(outcome: LoginOutcome) -> String {
    match outcome {
        LoginOutcome::TwoFactorRequired(r) => r.login_attempt_id,
        LoginOutcome::Authenticated { .. } => panic!("expected a two-factor challenge"),
    }
}

#[test]
fn should_return_201_if_valid_input() {
    let mut app = TestApp::new();
    let message = app.signup("email@email.com", "password", true).unwrap();
    assert_eq!(message, "User created successfully!");
}

#[test]
fn signup_should_return_400_if_invalid_input() {
    let mut app = TestApp::new();
    let invalid = [
        ("email.com", "password"),
        ("", "password"),
        ("email@email.com", "pass"),
    ];
    for (email, password) in invalid {
        let r = app.signup(email, password, true);
        assert_eq!(status(&r), 400);
        let body = ErrorResponse::for_error(&r.unwrap_err());
        assert!(body.error.starts_with("Invalid credentials"));
    }
}

#[test]
fn should_return_409_if_email_alredy_exists() {
    let mut app = TestApp::new();
    app.signup("email@email.com", "password", true).unwrap();
    let r = app.signup("email@email.com", "password", true);
    assert_eq!(status(&r), 409);
    assert_eq!(ErrorResponse::for_error(&r.unwrap_err()).error, "User already exists");
}

#[test]
fn login_should_return_400_if_invalid_input() {
    let mut app = TestApp::new();
    for (email, password) in [("valid@email.com", "pass"), ("invalid", "password")] {
        let r = app.login(email, password);
        assert_eq!(status(&r), 400);
    }
}

#[test]
fn login_should_return_401_if_incorrect_credentials() {
    let mut app = TestApp::new();
    let r = app.login("unknown@email.com", "password");
    assert_eq!(status(&r), 401);
}

#[test]
fn wrong_password_and_unknown_email_look_the_same() {
    let mut app = TestApp::new();
    app.signup("known@email.com", "password1", false).unwrap();
    let unknown = app.login("unknown@email.com", "password1").err().unwrap();
    let wrong = app.login("known@email.com", "password2").err().unwrap();
    assert_eq!(unknown, AuthAPIError::IncorrectCredentials);
    assert_eq!(wrong, AuthAPIError::IncorrectCredentials);
}

#[test]
fn should_return_200_if_valid_credentials_and_2fa_disabled() {
    let mut app = TestApp::new();
    assert!(app.signup("random@email.com", "password123", false).is_ok());
    let r = app.login("random@email.com", "password123");
    assert_eq!(status(&r), 200);
    let token = token_of(r.unwrap());
    assert!(!token.is_empty());
}

#[test]
fn should_return_206_if_valid_credentials_and_2fa_enabled() {
    let mut app = TestApp::new();
    assert!(app.signup("random@email.com", "password123", true).is_ok());
    let outcome = app.login("random@email.com", "password123").unwrap();
    let response = match outcome {
        LoginOutcome::TwoFactorRequired(r) => r,
        LoginOutcome::Authenticated { .. } => panic!("expected a two-factor challenge"),
    };
    assert_eq!(response.message, "2FA required");
    let (id, code) = app.stored_code("random@email.com");
    assert_eq!(id.as_str(), response.login_attempt_id);
    assert!(TwoFACode::parse(code.as_str().to_string()).is_ok());
    assert_ne!(response.login_attempt_id, code.as_str());
}

#[test]
fn login_response_body_drops_the_token() {
    let mut app = TestApp::new();
    app.signup("a@b.com", "password1", false).unwrap();
    let body = app.login("a@b.com", "password1").unwrap().response();
    assert!(matches!(body, LoginResponse::RegularAuth));
}

#[test]
fn login_with_stores_the_given_challenge() {
    let mut app = TestApp::new();
    app.signup("x@y.com", "password1", true).unwrap();
    let id = LoginAttemptId::parse("550e8400-e29b-41d4-a716-446655440000".to_string()).unwrap();
    let code = TwoFACode::parse("424242".to_string()).unwrap();
    let request = LoginRequest { email: "x@y.com".to_string(), password: "password1".to_string() };
    let outcome = login_with(&app.users, &mut app.codes, &app.codec, &request, NOW, id, code).unwrap();
    assert_eq!(attempt_of(outcome), "550e8400-e29b-41d4-a716-446655440000");
    let (stored_id, stored_code) = app.stored_code("x@y.com");
    assert_eq!(stored_id.as_str(), "550e8400-e29b-41d4-a716-446655440000");
    assert_eq!(stored_code.as_str(), "424242");
}

#[test]
fn should_return_400_if_jwt_cookie_missing() {
    let mut app = TestApp::new();
    let r = app.logout(None);
    assert_eq!(status(&r), 400);
    assert_eq!(r.unwrap_err(), AuthAPIError::MissingToken);
}

#[test]
fn logout_should_return_401_if_invalid_token() {
    let mut app = TestApp::new();
    let r = app.logout(Some("invalid"));
    assert_eq!(status(&r), 401);
}

#[test]
fn should_return_200_if_valid_jwt_cookie() {
    let mut app = TestApp::new();
    let random_email = Email::parse("random@email.com").unwrap();
    let token = app.codec.issue(&random_email, NOW);
    let r = app.logout(Some(&token));
    assert_eq!(status(&r), 200);
    let banned_token_state = app.banned.verify(&token);
    assert!(banned_token_state.is_banned());
    assert_eq!(banned_token_state.email().unwrap(), random_email)
}

#[test]
fn should_return_400_if_logout_called_twice_in_a_row() {
    let mut app = TestApp::new();
    let token = app.codec.issue(&Email::parse("random@email.com").unwrap(), NOW);
    let mut cookie = Some(token);
    assert!(app.logout(cookie.as_deref()).is_ok());
    // a successful logout clears the session cookie
    cookie = None;
    let r = app.logout(cookie.as_deref());
    assert_eq!(status(&r), 400);
}

#[test]
fn resent_token_after_logout_is_invalid() {
    let mut app = TestApp::new();
    let token = app.codec.issue(&Email::parse("random@email.com").unwrap(), NOW);
    assert!(app.logout(Some(&token)).is_ok());
    assert_eq!(app.logout(Some(&token)).unwrap_err(), AuthAPIError::InvalidToken);
}

#[test]
fn verify_2fa_should_return_400_if_invalid_input() {
    let mut app = TestApp::new();
    let id = LoginAttemptId::default();
    let r = app.verify_2fa("bademail", id.as_str(), "123456");
    assert_eq!(status(&r), 400);
    let r = app.verify_2fa("good@email.com", "bad login attempt", "123456");
    assert_eq!(status(&r), 400);
    let r = app.verify_2fa("good@email.com", id.as_str(), "badcode");
    assert_eq!(status(&r), 400);
}

#[test]
fn verify_2fa_should_return_401_if_incorrect_credentials() {
    let mut app = TestApp::new();
    let id = LoginAttemptId::default();
    let r = app.verify_2fa("random@email.com", id.as_str(), "123456");
    assert_eq!(status(&r), 401);
}

#[test]
fn should_return_401_if_old_code() {
    let mut app = TestApp::new();
    app.signup("x@y.com", "password", true).unwrap();
    let first = attempt_of(app.login("x@y.com", "password").unwrap());
    let (_, old_code) = app.stored_code("x@y.com");
    let second = attempt_of(app.login("x@y.com", "password").unwrap());
    assert_ne!(first, second);
    let r = app.verify_2fa("x@y.com", &first, old_code.as_str());
    assert_eq!(status(&r), 401);
    let (_, code) = app.stored_code("x@y.com");
    let r = app.verify_2fa("x@y.com", &second, code.as_str());
    assert_eq!(status(&r), 200);
}

#[test]
fn should_return_200_if_correct_code() {
    let mut app = TestApp::new();
    app.signup("random@email.com", "password", true).unwrap();
    let id = attempt_of(app.login("random@email.com", "password").unwrap());
    let (_, code) = app.stored_code("random@email.com");
    let r = app.verify_2fa("random@email.com", &id, code.as_str());
    assert_eq!(status(&r), 200);
    let token = r.unwrap();
    assert!(!token.is_empty());
    assert!(app.verify_token(&token).is_ok());
}

#[test]
fn should_return_401_if_same_code_twice() {
    let mut app = TestApp::new();
    app.signup("random@email.com", "password", true).unwrap();
    let id = attempt_of(app.login("random@email.com", "password").unwrap());
    let (_, code) = app.stored_code("random@email.com");
    assert_eq!(status(&app.verify_2fa("random@email.com", &id, code.as_str())), 200);
    assert_eq!(status(&app.verify_2fa("random@email.com", &id, code.as_str())), 401);
}

#[test]
fn wrong_code_keeps_the_challenge() {
    let mut app = TestApp::new();
    app.signup("random@email.com", "password", true).unwrap();
    let id = attempt_of(app.login("random@email.com", "password").unwrap());
    let (_, code) = app.stored_code("random@email.com");
    let wrong = if code.as_str() == "000000" { "111111" } else { "000000" };
    assert_eq!(status(&app.verify_2fa("random@email.com", &id, wrong)), 401);
    assert_eq!(status(&app.verify_2fa("random@email.com", &id, code.as_str())), 200);
}

#[test]
fn should_return_200_valid_token() {
    let app = TestApp::new();
    let email = Email::parse("valid@email.com").unwrap();
    let token = app.codec.issue(&email, NOW);
    assert_eq!(status(&app.verify_token(&token)), 200);
}

#[test]
fn verify_token_should_return_401_if_invalid_token() {
    let app = TestApp::new();
    assert_eq!(status(&app.verify_token("invalidtoken")), 401);
}

#[test]
fn should_return_401_if_banned_token() {
    let mut app = TestApp::new();
    app.signup("random@email.com", "password", false).unwrap();
    let token = token_of(app.login("random@email.com", "password").unwrap());
    assert!(app.logout(Some(&token)).is_ok());
    assert_eq!(status(&app.verify_token(&token)), 401);
}

#[test]
fn full_session_without_second_factor() {
    let mut app = TestApp::new();
    app.signup("a@b.com", "password1", false).unwrap();
    let r = app.login("a@b.com", "password1");
    assert_eq!(status(&r), 200);
    let cookie = token_of(r.unwrap());
    assert_eq!(status(&app.verify_token(&cookie)), 200);
    assert_eq!(status(&app.logout(Some(&cookie))), 200);
    assert_eq!(status(&app.verify_token(&cookie)), 401);
}

#[test]
fn full_session_with_second_factor() {
    let mut app = TestApp::new();
    app.signup("x@y.com", "password1", true).unwrap();
    let l1 = attempt_of(app.login("x@y.com", "password1").unwrap());
    let (_, old_code) = app.stored_code("x@y.com");
    let l2 = attempt_of(app.login("x@y.com", "password1").unwrap());
    assert_ne!(l1, l2);
    assert_eq!(status(&app.verify_2fa("x@y.com", &l1, old_code.as_str())), 401);
    let (_, current) = app.stored_code("x@y.com");
    assert_eq!(status(&app.verify_2fa("x@y.com", &l2, current.as_str())), 200);
}

#[test]
fn error_statuses_and_messages() {
    let cases = [
        (AuthAPIError::UserAlreadyExists, 409, "User already exists"),
        (AuthAPIError::InvalidCredentials("x".to_string()), 400, "Invalid credentials: x"),
        (AuthAPIError::IncorrectCredentials, 401, "Access to server limitted or no access granted."),
        (AuthAPIError::MissingToken, 400, "Missing token"),
        (AuthAPIError::InvalidToken, 401, "Invalid token"),
        (AuthAPIError::BadInput("y".to_string()), 400, "Bad input: y"),
        (AuthAPIError::UnexpectedError, 500, "Unexpected error"),
    ];
    for (e, code, message) in cases {
        assert_eq!(e.status_code(), code);
        assert_eq!(e.message(), message);
    }
}

#[test]
fn complete_login_maps_store_failures() {
    let mut app = TestApp::new();
    let id = LoginAttemptId::default();
    let code = TwoFACode::default();
    let r = complete_login(Err(UserStoreError::UserNotFound), &mut app.codes, &app.codec, NOW, id.clone(), code.clone());
    assert_eq!(r.err().unwrap(), AuthAPIError::IncorrectCredentials);
    let r = complete_login(
        Err(UserStoreError::InvalidCredentials("Invalid password".to_string())),
        &mut app.codes,
        &app.codec,
        NOW,
        id.clone(),
        code.clone(),
    );
    assert_eq!(r.err().unwrap(), AuthAPIError::IncorrectCredentials);
    let r = complete_login(Err(UserStoreError::UnexpectedError), &mut app.codes, &app.codec, NOW, id, code);
    assert_eq!(status(&r), 500);
    assert_eq!(r.err().unwrap(), AuthAPIError::UnexpectedError);
}

#[test]
fn logout_refuses_token_whose_subject_is_not_an_address() {
    let mut app = TestApp::new();
    let payload = format!("{:016x}.{:016x}.nobody", NOW + 600, 7);
    let mut mac = hmac::Hmac::<sha2::Sha256>::new_from_slice(b"test secret").unwrap();
    mac.update(payload.as_bytes());
    let tag = mac.finalize().into_bytes().to_vec();
    let token = encode_signed(&tag, &payload);
    assert!(app.verify_token(&token).is_ok());
    assert_eq!(app.logout(Some(&token)).unwrap_err(), AuthAPIError::InvalidToken);
    assert!(app.banned.verify(&token).is_absent());
}

#[test]
fn expired_token_is_refused() {
    let mut app = TestApp::new();
    let token = app.codec.issue(&Email::parse("a@b.com").unwrap(), NOW - 600);
    assert_eq!(app.verify_token(&token).unwrap_err(), AuthAPIError::InvalidToken);
    assert_eq!(app.logout(Some(&token)).unwrap_err(), AuthAPIError::InvalidToken);
}

#[test]
fn login_again_after_logout_gets_a_valid_token() {
    let mut app = TestApp::new();
    app.signup("a@b.com", "password1", false).unwrap();
    let first = token_of(app.login("a@b.com", "password1").unwrap());
    assert!(app.logout(Some(&first)).is_ok());
    let second = token_of(app.login("a@b.com", "password1").unwrap());
    assert_ne!(first, second);
    assert!(app.verify_token(&second).is_ok());
}
