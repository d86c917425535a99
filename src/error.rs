//! Error types of the stores and of the protocol layer.

use vstd::prelude::*;
use vstd::string::StringExecFns;

verus! {

/// Failures of a credential store.
#[derive(Debug, Clone, PartialEq)]
pub enum UserStoreError {
    UserAlreadyExists,
    UserNotFound,
    InvalidCredentials(String),
    UnexpectedError,
}

pub type UserStoreResult<T> = Result<T, UserStoreError>;

/// Failures of a revocation store.
#[derive(Debug, Clone, PartialEq, Eq, Structural)]
pub enum BannedTokenStoreError {
    UnexpectedError,
}

/// Failures of a challenge store.
#[derive(Debug, Clone, PartialEq, Eq, Structural)]
pub enum TwoFACodeStoreError {
    LoginAttemptIdNotFound,
    UnexpectedError,
}

/// Failures of the email channel.
#[derive(Debug, Clone, PartialEq, Eq, Structural)]
pub enum EmailClientError {
    SendFailed,
}

pub type EmailClientResult<T> = Result<T, EmailClientError>;

/// Outcomes of the protocol layer that are reported to the caller as failures.
#[derive(Debug, Clone, PartialEq)]
pub enum AuthAPIError {
    UserAlreadyExists,
    /// Malformed email or password, with a detail for the caller.
    InvalidCredentials(String),
    /// Unknown user, wrong password or wrong challenge; deliberately generic.
    IncorrectCredentials,
    MissingToken,
    InvalidToken,
    /// Malformed challenge fields, with a detail for the caller.
    BadInput(String),
    UnexpectedError,
}

/// The HTTP status that reports an error.
pub open spec fn status_of(e: AuthAPIError) -> u16 {
    match e {
        AuthAPIError::UserAlreadyExists => 409,
        AuthAPIError::InvalidCredentials(_) => 400,
        AuthAPIError::IncorrectCredentials => 401,
        AuthAPIError::MissingToken => 400,
        AuthAPIError::InvalidToken => 401,
        AuthAPIError::BadInput(_) => 400,
        AuthAPIError::UnexpectedError => 500,
    }
}

impl AuthAPIError {
    /// The message shown to the caller; internal failures carry no detail.
    pub open spec fn message_spec(&self) -> Seq<char> {
        match *self {
            AuthAPIError::InvalidCredentials(d) => "Invalid credentials: "@ + d@,
            AuthAPIError::BadInput(d) => "Bad input: "@ + d@,
            AuthAPIError::UserAlreadyExists => "User already exists"@,
            AuthAPIError::IncorrectCredentials => "Access to server limitted or no access granted."@,
            AuthAPIError::MissingToken => "Missing token"@,
            AuthAPIError::InvalidToken => "Invalid token"@,
            AuthAPIError::UnexpectedError => "Unexpected error"@,
        }
    }

    pub fn status_code(&self) -> (r: u16)
        ensures
            r == status_of(*self),
    {
        match self {
            AuthAPIError::UserAlreadyExists => 409,
            AuthAPIError::InvalidCredentials(_) => 400,
            AuthAPIError::IncorrectCredentials => 401,
            AuthAPIError::MissingToken => 400,
            AuthAPIError::InvalidToken => 401,
            AuthAPIError::BadInput(_) => 400,
            AuthAPIError::UnexpectedError => 500,
        }
    }

    pub fn message(&self) -> (r: String)
        ensures
            r@ == self.message_spec(),
    {
        match self {
            AuthAPIError::InvalidCredentials(d) => {
                String::from_str("Invalid credentials: ").concat(d.as_str())
            },
            AuthAPIError::BadInput(d) => String::from_str("Bad input: ").concat(d.as_str()),
            AuthAPIError::UserAlreadyExists => String::from_str("User already exists"),
            AuthAPIError::IncorrectCredentials => String::from_str(
                "Access to server limitted or no access granted.",
            ),
            AuthAPIError::MissingToken => String::from_str("Missing token"),
            AuthAPIError::InvalidToken => String::from_str("Invalid token"),
            AuthAPIError::UnexpectedError => String::from_str("Unexpected error"),
        }
    }
}

/// Maps a credential-store failure to the protocol error reported for it.
pub fn map_user_store_error_to_api_error(user_error: UserStoreError) -> (r: AuthAPIError)
    ensures
        match user_error {
            UserStoreError::InvalidCredentials(d) => r == AuthAPIError::InvalidCredentials(d),
            UserStoreError::UserNotFound => r == AuthAPIError::IncorrectCredentials,
            UserStoreError::UserAlreadyExists => r == AuthAPIError::UserAlreadyExists,
            UserStoreError::UnexpectedError => r == AuthAPIError::UnexpectedError,
        },
{
    match user_error {
        UserStoreError::InvalidCredentials(details) => AuthAPIError::InvalidCredentials(details),
        UserStoreError::UserNotFound => AuthAPIError::IncorrectCredentials,
        UserStoreError::UserAlreadyExists => AuthAPIError::UserAlreadyExists,
        UserStoreError::UnexpectedError => AuthAPIError::UnexpectedError,
    }
}

} // verus!
