//! Email, password and user records.

use vstd::prelude::*;
use vstd::string::{StrSliceExecFns, StringExecFns};

use crate::error::UserStoreError;

verus! {

/// An email address is non-empty and holds an `@`.
pub open spec fn valid_email(s: Seq<char>) -> bool {
    s.len() > 0 && s.contains('@')
}

/// A password holds at least eight characters.
pub open spec fn valid_password(s: Seq<char>) -> bool {
    s.len() >= 8
}

/// An email address, compared byte for byte.
#[derive(Debug, Clone, PartialEq, Eq, Hash)]
pub struct Email(String);

impl View for Email {
    type V = Seq<char>;

    closed spec fn view(&self) -> Seq<char> {
        self.0@
    }
}

impl Email {
    pub fn parse(value: &str) -> (r: Result<Email, UserStoreError>)
        ensures
            r is Ok <==> valid_email(value@),
            r matches Ok(e) ==> e@ == value@,
            r matches Err(e) ==> e matches UserStoreError::InvalidCredentials(_),
    {
        let n = value.unicode_len();
        let mut i: usize = 0;
        while i < n
            invariant
                n == value@.len(),
                i <= n,
                forall|j: int| 0 <= j < i ==> value@[j] != '@',
            decreases n - i,
        {
            if value.get_char(i) == '@' {
                return Ok(Email(String::from_str(value)));
            }
            i = i + 1;
        }
        Err(UserStoreError::InvalidCredentials(String::from_str("Invalid email address")))
    }

    pub fn as_str(&self) -> (r: &str)
        ensures
            r@ == self@,
    {
        self.0.as_str()
    }

    /// A second value of the same address.
    pub fn duplicate(&self) -> (r: Email)
        ensures
            r@ == self@,
    {
        Email(self.0.clone())
    }
}

/// A plaintext password, or a stored hash of one.
#[derive(Debug, Clone, PartialEq)]
pub struct Password(String);

impl View for Password {
    type V = Seq<char>;

    closed spec fn view(&self) -> Seq<char> {
        self.0@
    }
}

impl Password {
    pub fn parse(value: &str) -> (r: Result<Password, UserStoreError>)
        ensures
            r is Ok <==> valid_password(value@),
            r matches Ok(p) ==> p@ == value@,
            r matches Err(e) ==> e matches UserStoreError::InvalidCredentials(_),
    {
        if value.unicode_len() < 8 {
            return Err(
                UserStoreError::InvalidCredentials(
                    String::from_str("Password too short (must have 8 chars or more)"),
                ),
            );
        }
        Ok(Password(String::from_str(value)))
    }

    /// Wraps a stored password hash, which has no length rule.
    pub fn from_hash(hash: String) -> (r: Password)
        ensures
            r@ == hash@,
    {
        Password(hash)
    }

    pub fn as_str(&self) -> (r: &str)
        ensures
            r@ == self@,
    {
        self.0.as_str()
    }

    pub fn duplicate(&self) -> (r: Password)
        ensures
            r@ == self@,
    {
        Password(self.0.clone())
    }

    pub fn same_as(&self, other: &Password) -> (r: bool)
        ensures
            r == (self@ == other@),
    {
        self.0 == other.0
    }
}

/// A registered user; never changed once stored.
#[derive(Debug, Clone, PartialEq)]
pub struct User {
    pub email: Email,
    pub password: Password,
    pub requires_2fa: bool,
}

/// What a user record holds, as values.
pub struct UserView {
    pub email: Seq<char>,
    pub password: Seq<char>,
    pub requires_2fa: bool,
}

impl View for User {
    type V = UserView;

    open spec fn view(&self) -> UserView {
        UserView { email: self.email@, password: self.password@, requires_2fa: self.requires_2fa }
    }
}

impl User {
    pub fn new(email: Email, password: Password, requires_2fa: bool) -> (r: User)
        ensures
            r@ == (UserView { email: email@, password: password@, requires_2fa }),
    {
        User { email, password, requires_2fa }
    }

    pub fn duplicate(&self) -> (r: User)
        ensures
            r@ == self@,
    {
        User {
            email: self.email.duplicate(),
            password: self.password.duplicate(),
            requires_2fa: self.requires_2fa,
        }
    }
}

} // verus!
