//! The signup, login, two-factor, logout and token-check protocols.

use vstd::prelude::*;
use vstd::string::StringExecFns;

use crate::error::{map_user_store_error_to_api_error, AuthAPIError, UserStoreError, UserStoreResult};
use crate::stores::{BannedTokenStore, HashmapUserStore, TwoFACodeStore};
use crate::token::{token_check, token_claims, TokenCodec};
use crate::twofa::{uuid_parses, valid_code, LoginAttemptId, TwoFACode};
use crate::user::{valid_email, valid_password, Email, Password, User, UserView};

verus! {

pub struct SignupRequest {
    pub email: String,
    pub password: String,
    pub requires_2fa: bool,
}

impl SignupRequest {
    /// The user that the request describes, once its email and password are well formed.
    pub fn parse_user(&self) -> (r: Result<User, AuthAPIError>)
        ensures
            r is Ok <==> valid_email(self.email@) && valid_password(self.password@),
            r matches Ok(u) ==> u@ == (UserView {
                email: self.email@,
                password: self.password@,
                requires_2fa: self.requires_2fa,
            }),
            r matches Err(e) ==> e is InvalidCredentials,
    {
        let email = match Email::parse(self.email.as_str()) {
            Ok(e) => e,
            Err(e) => {
                return Err(map_user_store_error_to_api_error(e));
            },
        };
        let password = match Password::parse(self.password.as_str()) {
            Ok(p) => p,
            Err(e) => {
                return Err(map_user_store_error_to_api_error(e));
            },
        };
        Ok(User::new(email, password, self.requires_2fa))
    }
}

pub struct SignupResponse {
    pub message: String,
}

impl SignupResponse {
    pub fn created() -> (r: SignupResponse)
        ensures
            r.message@ == "User created successfully!"@,
    {
        SignupResponse { message: String::from_str("User created successfully!") }
    }
}

pub struct LoginRequest {
    pub email: String,
    pub password: String,
}

impl LoginRequest {
    pub fn parse_email(&self) -> (r: Result<Email, AuthAPIError>)
        ensures
            r is Ok <==> valid_email(self.email@),
            r matches Ok(e) ==> e@ == self.email@,
            r matches Err(e) ==> e is InvalidCredentials,
    {
        match Email::parse(self.email.as_str()) {
            Ok(e) => Ok(e),
            Err(e) => Err(map_user_store_error_to_api_error(e)),
        }
    }

    pub fn parse_password(&self) -> (r: Result<Password, AuthAPIError>)
        ensures
            r is Ok <==> valid_password(self.password@),
            r matches Ok(p) ==> p@ == self.password@,
            r matches Err(e) ==> e is InvalidCredentials,
    {
        match Password::parse(self.password.as_str()) {
            Ok(p) => Ok(p),
            Err(e) => Err(map_user_store_error_to_api_error(e)),
        }
    }
}

/// The body of a login answer.
pub enum LoginResponse {
    RegularAuth,
    TwoFactorAuth(TwoFactorAuthResponse),
}

pub struct TwoFactorAuthResponse {
    pub message: String,
    pub login_attempt_id: String,
}

/// A successful login: a session token, or a pending two-factor challenge.
pub enum LoginOutcome {
    Authenticated { token: String },
    TwoFactorRequired(TwoFactorAuthResponse),
}

impl LoginOutcome {
    /// The body that reports this outcome; the token travels apart from it.
    pub fn response(self) -> (r: LoginResponse)
        ensures
            self is Authenticated ==> r is RegularAuth,
            self matches LoginOutcome::TwoFactorRequired(t) ==> (r matches LoginResponse::TwoFactorAuth(
                u,
            ) && u == t),
    {
        match self {
            LoginOutcome::Authenticated { .. } => LoginResponse::RegularAuth,
            LoginOutcome::TwoFactorRequired(t) => LoginResponse::TwoFactorAuth(t),
        }
    }
}

pub struct Verify2FARequest {
    pub email: String,
    pub login_attempt_id: String,
    pub two_fa_code: String,
}

pub struct VerifyTokenResquest {
    pub token: String,
}

pub struct ErrorResponse {
    pub error: String,
}

impl ErrorResponse {
    pub fn for_error(e: &AuthAPIError) -> (r: ErrorResponse)
        ensures
            r.error@ == e.message_spec(),
    {
        ErrorResponse { error: e.message() }
    }
}

/// Signup on well-formed input: the new user map, or the error.
pub open spec fn signup_spec(
    users: Map<Seq<char>, UserView>,
    email: Seq<char>,
    password: Seq<char>,
    requires_2fa: bool,
) -> Result<Map<Seq<char>, UserView>, AuthAPIError> {
    if users.contains_key(email) {
        Err(AuthAPIError::UserAlreadyExists)
    } else {
        Ok(users.insert(email, UserView { email, password, requires_2fa }))
    }
}

/// Credential check of a login on well-formed input: whether the user asks for a
/// second factor, or the one generic refusal.
pub open spec fn login_spec(users: Map<Seq<char>, UserView>, email: Seq<char>, password: Seq<char>) -> Result<
    bool,
    AuthAPIError,
> {
    if users.contains_key(email) && users[email].password == password {
        Ok(users[email].requires_2fa)
    } else {
        Err(AuthAPIError::IncorrectCredentials)
    }
}

/// A two-factor answer on well-formed input: the challenges left, or the refusal.
pub open spec fn verify_2fa_spec(
    codes: Map<Seq<char>, (Seq<char>, Seq<char>)>,
    email: Seq<char>,
    login_attempt_id: Seq<char>,
    code: Seq<char>,
) -> Result<Map<Seq<char>, (Seq<char>, Seq<char>)>, AuthAPIError> {
    if codes.contains_key(email) && codes[email] == (login_attempt_id, code) {
        Ok(codes.remove(email))
    } else {
        Err(AuthAPIError::IncorrectCredentials)
    }
}

/// Logout with a token: the banned tokens after it, or the error.
pub open spec fn logout_spec(
    key: Seq<char>,
    banned: Map<Seq<char>, Seq<char>>,
    now: nat,
    token: Seq<char>,
) -> Result<Map<Seq<char>, Seq<char>>, AuthAPIError> {
    match token_check(key, banned, now, token) {
        Ok(c) => if valid_email(c.0) {
            Ok(banned.insert(token, c.0))
        } else {
            Err(AuthAPIError::InvalidToken)
        },
        Err(_) => Err(AuthAPIError::InvalidToken),
    }
}

/// Registers a user.
pub fn signup(users: &mut HashmapUserStore, request: &SignupRequest) -> (r: Result<
    SignupResponse,
    AuthAPIError,
>)
    requires
        old(users).wf(),
    ensures
        final(users).wf(),
        !valid_email(request.email@) ==> (r matches Err(e) && e is InvalidCredentials),
        valid_email(request.email@) && !valid_password(request.password@) ==> (r matches Err(e)
            && e is InvalidCredentials),
        !(valid_email(request.email@) && valid_password(request.password@)) ==> final(users)@
            == old(users)@,
        valid_email(request.email@) && valid_password(request.password@) ==> match signup_spec(
            old(users)@,
            request.email@,
            request.password@,
            request.requires_2fa,
        ) {
            Ok(m) => final(users)@ == m && (r matches Ok(s) && s.message@
                == "User created successfully!"@),
            Err(e) => final(users)@ == old(users)@ && r == Err::<SignupResponse, AuthAPIError>(e),
        },
{
    let user = request.parse_user()?;
    match users.add_user(user) {
        Ok(()) => Ok(SignupResponse::created()),
        Err(e) => Err(map_user_store_error_to_api_error(e)),
    }
}

/// Login with the attempt id and code to use should the user ask for a second factor.
pub fn login_with<C: TwoFACodeStore>(
    users: &HashmapUserStore,
    codes: &mut C,
    codec: &TokenCodec,
    request: &LoginRequest,
    now: u64,
    login_attempt_id: LoginAttemptId,
    code: TwoFACode,
) -> (r: Result<LoginOutcome, AuthAPIError>)
    requires
        users.wf(),
        old(codes).inv(),
        now + codec.ttl() <= u64::MAX,
    ensures
        final(codes).inv(),
        !valid_email(request.email@) ==> (r matches Err(e) && e is InvalidCredentials),
        valid_email(request.email@) && !valid_password(request.password@) ==> (r matches Err(e)
            && e is InvalidCredentials),
        !(valid_email(request.email@) && valid_password(request.password@)) ==> final(codes).codes()
            == old(codes).codes(),
        valid_email(request.email@) && valid_password(request.password@) ==> match login_spec(
            users@,
            request.email@,
            request.password@,
        ) {
            Err(e) => r == Err::<LoginOutcome, AuthAPIError>(e) && final(codes).codes() == old(codes).codes(),
            Ok(false) => final(codes).codes() == old(codes).codes() && (r matches Ok(
                LoginOutcome::Authenticated { token },
            ) && token_claims(codec.key(), token@) == Some(
                (request.email@, (now + codec.ttl()) as nat),
            )),
            Ok(true) => final(codes).codes() == old(codes).codes().insert(
                request.email@,
                (login_attempt_id@, code@),
            ) && (r matches Ok(LoginOutcome::TwoFactorRequired(t)) && t.login_attempt_id@
                == login_attempt_id@ && t.message@ == "2FA required"@),
        },
{
    let email = request.parse_email()?;
    let password = request.parse_password()?;
    let found = match users.validate_user(email.duplicate(), password) {
        Ok(()) => users.get_user(email),
        Err(e) => Err(e),
    };
    complete_login(found, codes, codec, now, login_attempt_id, code)
}

/// The protocol error for a failed credential check: unknown user and wrong
/// password look the same.
pub open spec fn credential_error(e: UserStoreError) -> AuthAPIError {
    match e {
        UserStoreError::UserNotFound => AuthAPIError::IncorrectCredentials,
        UserStoreError::InvalidCredentials(_) => AuthAPIError::IncorrectCredentials,
        _ => AuthAPIError::UnexpectedError,
    }
}

/// The rest of a login once the credential store has answered: `found` is the user
/// whose password checked out, or why the check failed.
pub fn complete_login<C: TwoFACodeStore>(
    found: UserStoreResult<User>,
    codes: &mut C,
    codec: &TokenCodec,
    now: u64,
    login_attempt_id: LoginAttemptId,
    code: TwoFACode,
) -> (r: Result<LoginOutcome, AuthAPIError>)
    requires
        old(codes).inv(),
        now + codec.ttl() <= u64::MAX,
    ensures
        final(codes).inv(),
        match found {
            Err(e) => r == Err::<LoginOutcome, AuthAPIError>(credential_error(e)) && final(codes).codes()
                == old(codes).codes(),
            Ok(u) => if u.requires_2fa {
                final(codes).codes() == old(codes).codes().insert(u.email@, (login_attempt_id@, code@)) && (r matches Ok(
                    LoginOutcome::TwoFactorRequired(t),
                ) && t.login_attempt_id@ == login_attempt_id@ && t.message@ == "2FA required"@)
            } else {
                final(codes).codes() == old(codes).codes() && (r matches Ok(LoginOutcome::Authenticated { token })
                    && token_claims(codec.key(), token@) == Some(
                    (u.email@, (now + codec.ttl()) as nat),
                ))
            },
        },
{
    let user = match found {
        Ok(u) => u,
        Err(UserStoreError::UserNotFound) => {
            return Err(AuthAPIError::IncorrectCredentials);
        },
        Err(UserStoreError::InvalidCredentials(_)) => {
            return Err(AuthAPIError::IncorrectCredentials);
        },
        Err(_) => {
            return Err(AuthAPIError::UnexpectedError);
        },
    };
    if user.requires_2fa {
        let id_text = String::from_str(login_attempt_id.as_str());
        let _ = codes.add_code(user.email, login_attempt_id, code);
        Ok(
            LoginOutcome::TwoFactorRequired(
                TwoFactorAuthResponse {
                    message: String::from_str("2FA required"),
                    login_attempt_id: id_text,
                },
            ),
        )
    } else {
        Ok(LoginOutcome::Authenticated { token: codec.issue(&user.email, now) })
    }
}

/// Login; a user who asks for a second factor gets a fresh random challenge.
pub fn login<C: TwoFACodeStore>(
    users: &HashmapUserStore,
    codes: &mut C,
    codec: &TokenCodec,
    request: &LoginRequest,
    now: u64,
) -> (r: Result<LoginOutcome, AuthAPIError>)
    requires
        users.wf(),
        old(codes).inv(),
        now + codec.ttl() <= u64::MAX,
    ensures
        final(codes).inv(),
        !valid_email(request.email@) ==> (r matches Err(e) && e is InvalidCredentials),
        valid_email(request.email@) && !valid_password(request.password@) ==> (r matches Err(e)
            && e is InvalidCredentials),
        !(valid_email(request.email@) && valid_password(request.password@)) ==> final(codes).codes()
            == old(codes).codes(),
        valid_email(request.email@) && valid_password(request.password@) ==> match login_spec(
            users@,
            request.email@,
            request.password@,
        ) {
            Err(e) => r == Err::<LoginOutcome, AuthAPIError>(e) && final(codes).codes() == old(codes).codes(),
            Ok(false) => final(codes).codes() == old(codes).codes() && (r matches Ok(
                LoginOutcome::Authenticated { token },
            ) && token_claims(codec.key(), token@) == Some(
                (request.email@, (now + codec.ttl()) as nat),
            )),
            Ok(true) => r matches Ok(LoginOutcome::TwoFactorRequired(t)) && {
                let c = final(codes).codes()[request.email@];
                &&& final(codes).codes() == old(codes).codes().insert(request.email@, c)
                &&& c.0 == t.login_attempt_id@
                &&& uuid_parses(c.0)
                &&& valid_code(c.1)
                &&& t.message@ == "2FA required"@
            },
        },
{
    let login_attempt_id = LoginAttemptId::generate();
    let code = TwoFACode::generate();
    login_with(users, codes, codec, request, now, login_attempt_id, code)
}

/// Answers a two-factor challenge; a match consumes it and yields a session token.
pub fn verify_2fa<C: TwoFACodeStore>(
    codes: &mut C,
    codec: &TokenCodec,
    request: &Verify2FARequest,
    now: u64,
) -> (r: Result<String, AuthAPIError>)
    requires
        old(codes).inv(),
        now + codec.ttl() <= u64::MAX,
    ensures
        final(codes).inv(),
        !valid_email(request.email@) ==> (r matches Err(e) && e is InvalidCredentials),
        valid_email(request.email@) && !uuid_parses(request.login_attempt_id@) ==> (r matches Err(
            e,
        ) && e is BadInput),
        valid_email(request.email@) && uuid_parses(request.login_attempt_id@) && !valid_code(
            request.two_fa_code@,
        ) ==> (r matches Err(e) && e is BadInput),
        !(valid_email(request.email@) && uuid_parses(request.login_attempt_id@) && valid_code(
            request.two_fa_code@,
        )) ==> final(codes).codes() == old(codes).codes(),
        valid_email(request.email@) && uuid_parses(request.login_attempt_id@) && valid_code(
            request.two_fa_code@,
        ) ==> match verify_2fa_spec(
            old(codes).codes(),
            request.email@,
            request.login_attempt_id@,
            request.two_fa_code@,
        ) {
            Ok(m) => final(codes).codes() == m && (r matches Ok(token) && token_claims(codec.key(), token@) == Some(
                (request.email@, (now + codec.ttl()) as nat),
            )),
            Err(e) => final(codes).codes() == old(codes).codes() && r == Err::<String, AuthAPIError>(e),
        },
{
    let email = match Email::parse(request.email.as_str()) {
        Ok(e) => e,
        Err(e) => {
            return Err(map_user_store_error_to_api_error(e));
        },
    };
    let login_attempt_id = match LoginAttemptId::parse(request.login_attempt_id.clone()) {
        Ok(a) => a,
        Err(m) => {
            return Err(AuthAPIError::BadInput(m));
        },
    };
    let two_fa_code = match TwoFACode::parse(request.two_fa_code.clone()) {
        Ok(c) => c,
        Err(m) => {
            return Err(AuthAPIError::BadInput(m));
        },
    };
    let (stored_id, stored_code) = match codes.get_code(&email) {
        Ok(c) => c,
        Err(_) => {
            return Err(AuthAPIError::IncorrectCredentials);
        },
    };
    if !stored_id.same_as(&login_attempt_id) || !stored_code.same_as(&two_fa_code) {
        return Err(AuthAPIError::IncorrectCredentials);
    }
    let token = codec.issue(&email, now);
    let _ = codes.remove_code(&email);
    Ok(token)
}

/// Ends the session of `token`: bans it. Without a token there is nothing to end.
pub fn logout<B: BannedTokenStore>(
    banned: &mut B,
    codec: &TokenCodec,
    token: Option<&str>,
    now: u64,
) -> (r: Result<(), AuthAPIError>)
    requires
        old(banned).inv(),
    ensures
        final(banned).inv(),
        token is None ==> r == Err::<(), AuthAPIError>(AuthAPIError::MissingToken) && final(banned).banned()
            == old(banned).banned(),
        token matches Some(t) ==> match logout_spec(codec.key(), old(banned).banned(), now as nat, t@) {
            Ok(m) => r is Ok && final(banned).banned() == m,
            Err(e) => r == Err::<(), AuthAPIError>(e) && final(banned).banned() == old(banned).banned(),
        },
{
    let token = match token {
        Some(t) => t,
        None => {
            return Err(AuthAPIError::MissingToken);
        },
    };
    let claims = match codec.validate(token, now, banned) {
        Ok(c) => c,
        Err(_) => {
            return Err(AuthAPIError::InvalidToken);
        },
    };
    let email = match Email::parse(claims.sub.as_str()) {
        Ok(e) => e,
        Err(_) => {
            return Err(AuthAPIError::InvalidToken);
        },
    };
    banned.add(&email, token);
    Ok(())
}

/// Checks a token: well signed, not expired and not banned.
pub fn verify_token<B: BannedTokenStore>(banned: &B, codec: &TokenCodec, token: &str, now: u64) -> (r:
    Result<(), AuthAPIError>)
    requires
        banned.inv(),
    ensures
        r is Ok <==> token_check(codec.key(), banned.banned(), now as nat, token@) is Ok,
        r is Err ==> r == Err::<(), AuthAPIError>(AuthAPIError::InvalidToken),
{
    match codec.validate(token, now, banned) {
        Ok(_) => Ok(()),
        Err(_) => Err(AuthAPIError::InvalidToken),
    }
}

} // verus!
