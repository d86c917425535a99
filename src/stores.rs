//! The in-memory credential, revocation and challenge stores.

use vstd::prelude::*;

use crate::error::{TwoFACodeStoreError, UserStoreError, UserStoreResult};
use crate::keyed::KeyedVec;
use crate::twofa::{LoginAttemptId, TwoFACode};
use crate::user::{Email, Password, User, UserView};
use vstd::string::StringExecFns;

verus! {

/// Users keyed by their email address; the password is kept as given.
pub struct HashmapUserStore {
    users: KeyedVec<User>,
}

impl View for HashmapUserStore {
    type V = Map<Seq<char>, UserView>;

    closed spec fn view(&self) -> Map<Seq<char>, UserView> {
        self.users@.map_values(|u: User| u@)
    }
}

impl HashmapUserStore {
    /// Each user is stored under its own email address.
    pub closed spec fn wf(&self) -> bool {
        &&& self.users.wf()
        &&& forall|k: Seq<char>| #[trigger]
            self.users@.contains_key(k) ==> self.users@[k].email@ == k
    }

    pub fn new() -> (r: Self)
        ensures
            r.wf(),
            r@ == Map::<Seq<char>, UserView>::empty(),
    {
        let r = HashmapUserStore { users: KeyedVec::new() };
        assert(r@ =~= Map::<Seq<char>, UserView>::empty());
        r
    }

    /// Stores `user` unless its email address is taken.
    pub fn add_user(&mut self, user: User) -> (r: UserStoreResult<()>)
        requires
            old(self).wf(),
        ensures
            final(self).wf(),
            old(self)@.contains_key(user.email@) ==> r == Err::<(), UserStoreError>(
                UserStoreError::UserAlreadyExists,
            ) && final(self)@ == old(self)@,
            !old(self)@.contains_key(user.email@) ==> r == Ok::<(), UserStoreError>(())
                && final(self)@ == old(self)@.insert(user.email@, user@),
    {
        if self.users.contains(user.email.as_str()) {
            return Err(UserStoreError::UserAlreadyExists);
        }
        let key = String::from_str(user.email.as_str());
        let ghost u = user;
        self.users.insert(key, user);
        assert(self@ =~= old(self)@.insert(u.email@, u@));
        Ok(())
    }

    pub fn get_user(&self, email: Email) -> (r: UserStoreResult<User>)
        requires
            self.wf(),
        ensures
            self@.contains_key(email@) ==> (r matches Ok(u) && u@ == self@[email@] && u.email@
                == email@),
            !self@.contains_key(email@) ==> r == Err::<User, UserStoreError>(
                UserStoreError::UserNotFound,
            ),
    {
        match self.users.get(email.as_str()) {
            Some(u) => Ok(u.duplicate()),
            None => Err(UserStoreError::UserNotFound),
        }
    }

    /// Checks a password against the one stored for `email`.
    pub fn validate_user(&self, email: Email, password: Password) -> (r: UserStoreResult<()>)
        requires
            self.wf(),
        ensures
            !self@.contains_key(email@) ==> r == Err::<(), UserStoreError>(
                UserStoreError::UserNotFound,
            ),
            self@.contains_key(email@) && self@[email@].password != password@ ==> r matches Err(
                UserStoreError::InvalidCredentials(_),
            ),
            self@.contains_key(email@) && self@[email@].password == password@ ==> r == Ok::<
                (),
                UserStoreError,
            >(()),
    {
        let user = self.get_user(email)?;
        if !user.password.same_as(&password) {
            return Err(UserStoreError::InvalidCredentials(String::from_str("Passwords do not match")));
        }
        Ok(())
    }
}

impl Default for HashmapUserStore {
    fn default() -> (r: Self)
        ensures
            r.wf(),
            r@ == Map::<Seq<char>, UserView>::empty(),
    {
        HashmapUserStore::new()
    }
}

/// Whether a token was banned, and by whom.
#[derive(Debug, Clone, PartialEq, Default)]
pub enum BannedTokenState {
    /// The token was never banned.
    #[default]
    Absent,
    /// The token was banned; the address recorded with it.
    Exists(Email),
}

impl BannedTokenState {
    pub fn email(&self) -> (r: Option<Email>)
        ensures
            match *self {
                BannedTokenState::Absent => r is None,
                BannedTokenState::Exists(e) => r matches Some(x) && x@ == e@,
            },
    {
        match self {
            BannedTokenState::Absent => None,
            BannedTokenState::Exists(email) => Some(email.duplicate()),
        }
    }

    pub fn is_banned(&self) -> (r: bool)
        ensures
            r == (*self is Exists),
    {
        self.email().is_some()
    }

    pub fn is_absent(&self) -> (r: bool)
        ensures
            r == (*self is Absent),
    {
        self.email().is_none()
    }
}

/// Banned session tokens, each with the address it was issued to; never shrinks.
pub struct HashmapBannedTokenStore {
    data: KeyedVec<Email>,
}

impl View for HashmapBannedTokenStore {
    type V = Map<Seq<char>, Seq<char>>;

    closed spec fn view(&self) -> Map<Seq<char>, Seq<char>> {
        self.data@.map_values(|e: Email| e@)
    }
}

impl HashmapBannedTokenStore {
    pub closed spec fn wf(&self) -> bool {
        self.data.wf()
    }

    pub fn new() -> (r: Self)
        ensures
            r.wf(),
            r@ == Map::<Seq<char>, Seq<char>>::empty(),
    {
        let r = HashmapBannedTokenStore { data: KeyedVec::new() };
        assert(r@ =~= Map::<Seq<char>, Seq<char>>::empty());
        r
    }
}

/// A revocation store: it records banned tokens and looks them up, and never
/// forgets a ban.
pub trait BannedTokenStore {
    /// Each banned token, with the address recorded for it.
    spec fn banned(&self) -> Map<Seq<char>, Seq<char>>;

    spec fn inv(&self) -> bool;

    /// Records `token` as banned.
    fn add(&mut self, email: &Email, token: &str)
        requires
            old(self).inv(),
        ensures
            final(self).inv(),
            final(self).banned() == old(self).banned().insert(token@, email@),
    ;

    fn verify(&self, token: &str) -> (r: BannedTokenState)
        requires
            self.inv(),
        ensures
            !self.banned().contains_key(token@) ==> r is Absent,
            self.banned().contains_key(token@) ==> (r matches BannedTokenState::Exists(e) && e@
                == self.banned()[token@]),
    ;
}

impl BannedTokenStore for HashmapBannedTokenStore {
    open spec fn banned(&self) -> Map<Seq<char>, Seq<char>> {
        self@
    }

    open spec fn inv(&self) -> bool {
        self.wf()
    }

    fn add(&mut self, email: &Email, token: &str) {
        let e = email.duplicate();
        self.data.insert(String::from_str(token), e);
        assert(self@ =~= old(self)@.insert(token@, email@));
    }

    fn verify(&self, token: &str) -> (r: BannedTokenState) {
        match self.data.get(token) {
            None => BannedTokenState::Absent,
            Some(email) => BannedTokenState::Exists(email.duplicate()),
        }
    }
}

impl Default for HashmapBannedTokenStore {
    fn default() -> (r: Self)
        ensures
            r.wf(),
            r@ == Map::<Seq<char>, Seq<char>>::empty(),
    {
        HashmapBannedTokenStore::new()
    }
}

/// What a stored challenge holds: the attempt id and the code.
pub open spec fn challenge_view(c: (LoginAttemptId, TwoFACode)) -> (Seq<char>, Seq<char>) {
    (c.0@, c.1@)
}

/// At most one outstanding challenge per email address.
pub struct HashmapTwoFACodeStore {
    codes: KeyedVec<(LoginAttemptId, TwoFACode)>,
}

impl View for HashmapTwoFACodeStore {
    type V = Map<Seq<char>, (Seq<char>, Seq<char>)>;

    closed spec fn view(&self) -> Map<Seq<char>, (Seq<char>, Seq<char>)> {
        self.codes@.map_values(|c: (LoginAttemptId, TwoFACode)| challenge_view(c))
    }
}

impl HashmapTwoFACodeStore {
    pub closed spec fn wf(&self) -> bool {
        self.codes.wf()
    }

    pub fn new() -> (r: Self)
        ensures
            r.wf(),
            r@ == Map::<Seq<char>, (Seq<char>, Seq<char>)>::empty(),
    {
        let r = HashmapTwoFACodeStore { codes: KeyedVec::new() };
        assert(r@ =~= Map::<Seq<char>, (Seq<char>, Seq<char>)>::empty());
        r
    }
}

/// A challenge store: at most one outstanding challenge per email address, each a
/// login attempt id and a code.
pub trait TwoFACodeStore {
    /// The outstanding challenges, by address.
    spec fn codes(&self) -> Map<Seq<char>, (Seq<char>, Seq<char>)>;

    spec fn inv(&self) -> bool;

    /// Sets the challenge for `email`, replacing any earlier one.
    fn add_code(&mut self, email: Email, login_attempt_id: LoginAttemptId, code: TwoFACode) -> (r:
        Result<(), TwoFACodeStoreError>)
        requires
            old(self).inv(),
        ensures
            final(self).inv(),
            r is Ok,
            final(self).codes() == old(self).codes().insert(email@, (login_attempt_id@, code@)),
    ;

    /// Takes out the challenge for `email`.
    fn remove_code(&mut self, email: &Email) -> (r: Result<(), TwoFACodeStoreError>)
        requires
            old(self).inv(),
        ensures
            final(self).inv(),
            final(self).codes() == old(self).codes().remove(email@),
            old(self).codes().contains_key(email@) ==> r is Ok,
            !old(self).codes().contains_key(email@) ==> r == Err::<(), TwoFACodeStoreError>(
                TwoFACodeStoreError::LoginAttemptIdNotFound,
            ),
    ;

    fn get_code(&self, email: &Email) -> (r: Result<(LoginAttemptId, TwoFACode), TwoFACodeStoreError>)
        requires
            self.inv(),
        ensures
            self.codes().contains_key(email@) ==> (r matches Ok(c) && challenge_view(c)
                == self.codes()[email@]),
            !self.codes().contains_key(email@) ==> r == Err::<
                (LoginAttemptId, TwoFACode),
                TwoFACodeStoreError,
            >(TwoFACodeStoreError::LoginAttemptIdNotFound),
    ;
}

impl TwoFACodeStore for HashmapTwoFACodeStore {
    open spec fn codes(&self) -> Map<Seq<char>, (Seq<char>, Seq<char>)> {
        self@
    }

    open spec fn inv(&self) -> bool {
        self.wf()
    }

    fn add_code(&mut self, email: Email, login_attempt_id: LoginAttemptId, code: TwoFACode) -> (r:
        Result<(), TwoFACodeStoreError>) {
        let ghost v = (login_attempt_id@, code@);
        self.codes.insert(String::from_str(email.as_str()), (login_attempt_id, code));
        assert(self@ =~= old(self)@.insert(email@, v));
        Ok(())
    }

    fn remove_code(&mut self, email: &Email) -> (r: Result<(), TwoFACodeStoreError>) {
        let found = self.codes.remove(email.as_str());
        assert(self@ =~= old(self)@.remove(email@));
        if found {
            Ok(())
        } else {
            Err(TwoFACodeStoreError::LoginAttemptIdNotFound)
        }
    }

    fn get_code(&self, email: &Email) -> (r: Result<(LoginAttemptId, TwoFACode), TwoFACodeStoreError>) {
        match self.codes.get(email.as_str()) {
            Some(c) => Ok((c.0.duplicate(), c.1.duplicate())),
            None => Err(TwoFACodeStoreError::LoginAttemptIdNotFound),
        }
    }
}

impl Default for HashmapTwoFACodeStore {
    fn default() -> (r: Self)
        ensures
            r.wf(),
            r@ == Map::<Seq<char>, (Seq<char>, Seq<char>)>::empty(),
    {
        HashmapTwoFACodeStore::new()
    }
}

} // verus!
