//! One-way password hashing for durable credential stores, and the store
//! decisions that rest on it.

use vstd::prelude::*;
use vstd::string::{StrSliceExecFns, StringExecFns};

use argon2::password_hash::{PasswordHash, SaltString};
use argon2::{Algorithm, Argon2, Params, PasswordHasher, PasswordVerifier, Version};

use crate::error::{UserStoreError, UserStoreResult};
use crate::text::is_ascii_digit;
use crate::user::{valid_email, valid_password, Email, Password, User, UserView};

verus! {

/// Memory cost, in KiB, of a new password hash.
pub const HASH_MEMORY_KIB: u32 = 15000;

/// Iterations of a new password hash.
pub const HASH_ITERATIONS: u32 = 2;

/// Lanes of a new password hash.
pub const HASH_LANES: u32 = 1;

/// Longest password, in characters, that hashing accepts: its UTF-8 form stays within
/// argon2's limit of `u32::MAX` bytes.
pub const MAX_PASSWORD_CHARS: usize = 0x3fff_ffff;

/// Number of `$` separators in `s`.
pub open spec fn dollar_count(s: Seq<char>) -> nat
    decreases s.len(),
{
    if s.len() == 0 {
        0
    } else {
        dollar_count(s.drop_last()) + if s.last() == '$' {
            1nat
        } else {
            0nat
        }
    }
}

/// `n` ASCII digits start at position `i` of `s`.
pub open spec fn digits_at(s: Seq<char>, i: int, n: nat) -> bool {
    0 <= i && i + n <= s.len() && forall|j: int| i <= j < i + n ==> is_ascii_digit(#[trigger] s[j])
}

pub open spec fn is_cost_name(c: char) -> bool {
    c == 'm' || c == 't' || c == 'p'
}

/// Most digits a cost parameter may have in a stored hash: memory below 10^6 KiB,
/// iterations and lanes below 100.
pub open spec fn cost_digits(c: char) -> nat {
    if c == 'm' {
        6
    } else {
        2
    }
}

/// A cost parameter `m=`, `t=` or `p=` starting at `i` has a short value.
pub open spec fn cost_short_at(s: Seq<char>, i: int) -> bool {
    (0 <= i && i + 1 < s.len() && is_cost_name(s[i]) && s[i + 1] == '=') ==> !digits_at(
        s,
        i + 2,
        cost_digits(s[i]) + 1,
    )
}

/// A stored hash that may be handed to the verifier: a PHC string with all five
/// fields after the empty one (algorithm, version, parameters, salt, output), and
/// cost parameters small enough to compute.
pub open spec fn checkable_hash(s: Seq<char>) -> bool {
    &&& dollar_count(s) == 5
    &&& forall|i: int| 0 <= i < s.len() ==> #[trigger] cost_short_at(s, i)
}

/// What checking `candidate` against the PHC string `hash` gives: `None` when the
/// string is malformed, else whether the candidate matches.
pub uninterp spec fn argon2_outcome(hash: Seq<char>, candidate: Seq<char>) -> Option<bool>;

/// Relies on `PasswordHash::new` and argon2's `PasswordVerifier::verify_password`: the
/// outcome depends on the two texts alone; `Error::Password` is the mismatch, any other
/// error a malformed hash. With five `$` a string that parses has both salt and output
/// (`PasswordHash::parse` refuses trailing fields), and short cost values keep
/// `Params::new` clear of overflow and of huge allocations.
#[verifier::external_body]
fn argon2_verify(hash: &str, candidate: &str) -> (r: Option<bool>)
    requires
        checkable_hash(hash@),
    ensures
        r == argon2_outcome(hash@, candidate@),
{
    match PasswordHash::new(hash) {
        Err(_) => None,
        Ok(h) => match Argon2::default().verify_password(candidate.as_bytes(), &h) {
            Ok(()) => Some(true),
            Err(argon2::password_hash::Error::Password) => Some(false),
            Err(_) => None,
        },
    }
}

/// Relies on argon2's `Params::new` and `PasswordHasher::hash_password` (Argon2id,
/// version 0x13) with a `SaltString` generated from `rand::thread_rng`: under these
/// bounds the parameters are valid and hashing fails only for a password over
/// `MAX_PWD_LEN` bytes. The PHC string (`$argon2id$v=19$m=..,t=..,p=..$salt$output`)
/// holds the salt and parameters, so verifying the same password against it
/// recomputes the same output.
#[verifier::external_body]
fn argon2id_hash(password: &str, m_cost: u32, t_cost: u32, p_cost: u32) -> (r: Option<String>)
    requires
        password@.len() <= MAX_PASSWORD_CHARS,
        1 <= p_cost < 100,
        1 <= t_cost < 100,
        8 * p_cost <= m_cost < 1_000_000,
    ensures
        r is Some,
        r matches Some(h) ==> argon2_outcome(h@, password@) == Some(true),
        r matches Some(h) ==> checkable_hash(h@),
{
    let salt = SaltString::generate(&mut rand::thread_rng());
    let params = Params::new(m_cost, t_cost, p_cost, None).ok()?;
    let hasher = Argon2::new(Algorithm::Argon2id, Version::V0x13, params);
    match hasher.hash_password(password.as_bytes(), &salt) {
        Ok(h) => Some(h.to_string()),
        Err(_) => None,
    }
}

/// Hashes a password with a fresh salt; only a password too long to hash fails.
pub fn compute_password_hash(password: &Password) -> (r: Result<String, UserStoreError>)
    ensures
        r is Ok <==> password@.len() <= MAX_PASSWORD_CHARS,
        r matches Ok(h) ==> argon2_outcome(h@, password@) == Some(true) && checkable_hash(h@),
        r matches Err(e) ==> e == UserStoreError::UnexpectedError,
{
    if password.as_str().unicode_len() > MAX_PASSWORD_CHARS {
        return Err(UserStoreError::UnexpectedError);
    }
    match argon2id_hash(password.as_str(), HASH_MEMORY_KIB, HASH_ITERATIONS, HASH_LANES) {
        Some(h) => Ok(h),
        None => Err(UserStoreError::UnexpectedError),
    }
}

/// Whether `digits_at(s@, i, k)`, where `n` is the length of `s`.
fn digits_at_exec(s: &str, n: usize, i: usize, k: usize) -> (r: bool)
    requires
        n == s@.len(),
        i <= n,
    ensures
        r == digits_at(s@, i as int, k as nat),
{
    if k > n - i {
        return false;
    }
    let mut j: usize = 0;
    while j < k
        invariant
            n == s@.len(),
            i + k <= n,
            j <= k,
            forall|x: int| i <= x < i + j ==> is_ascii_digit(#[trigger] s@[x]),
        decreases k - j,
    {
        let c = s.get_char(i + j);
        if !('0' <= c && c <= '9') {
            return false;
        }
        j = j + 1;
    }
    true
}

/// Whether a stored hash has the shape and cost bounds that the verifier is given.
pub fn is_checkable_hash(hash: &str) -> (r: bool)
    ensures
        r == checkable_hash(hash@),
{
    let n = hash.unicode_len();
    let mut dollars: usize = 0;
    let mut i: usize = 0;
    while i < n
        invariant
            n == hash@.len(),
            i <= n,
            dollars <= i,
            dollars == dollar_count(hash@.subrange(0, i as int)),
            forall|x: int| 0 <= x < i ==> #[trigger] cost_short_at(hash@, x),
        decreases n - i,
    {
        let c = hash.get_char(i);
        if (c == 'm' || c == 't' || c == 'p') && i + 1 < n && hash.get_char(i + 1) == '=' {
            let limit: usize = if c == 'm' {
                6
            } else {
                2
            };
            if digits_at_exec(hash, n, i + 2, limit + 1) {
                assert(!cost_short_at(hash@, i as int));
                return false;
            }
        }
        assert(cost_short_at(hash@, i as int));
        let ghost pre = hash@.subrange(0, i as int);
        if c == '$' {
            dollars = dollars + 1;
        }
        i = i + 1;
        assert(hash@.subrange(0, i as int).drop_last() == pre);
    }
    assert(hash@.subrange(0, n as int) == hash@);
    dollars == 5
}

/// The result of a password check given the outcome of the hash comparison: `None`
/// for a malformed stored hash, else whether the candidate matched.
pub fn password_check_outcome(outcome: Option<bool>) -> (r: UserStoreResult<()>)
    ensures
        outcome == Some(true) ==> r is Ok,
        outcome == Some(false) ==> (r matches Err(e) && e is InvalidCredentials),
        outcome is None ==> r == Err::<(), UserStoreError>(UserStoreError::UnexpectedError),
{
    match outcome {
        Some(true) => Ok(()),
        Some(false) => Err(UserStoreError::InvalidCredentials(String::from_str("Invalid password"))),
        None => Err(UserStoreError::UnexpectedError),
    }
}

/// Checks a candidate password against a stored hash; a stored hash that is not
/// checkable is an internal failure.
pub fn verify_password_hash(expected_password_hash: &str, password_candidate: &str) -> (r: Result<
    (),
    UserStoreError,
>)
    ensures
        !checkable_hash(expected_password_hash@) ==> r == Err::<(), UserStoreError>(
            UserStoreError::UnexpectedError,
        ),
        checkable_hash(expected_password_hash@) ==> match argon2_outcome(
            expected_password_hash@,
            password_candidate@,
        ) {
            Some(true) => r is Ok,
            Some(false) => r matches Err(e) && e is InvalidCredentials,
            None => r == Err::<(), UserStoreError>(UserStoreError::UnexpectedError),
        },
{
    if !is_checkable_hash(expected_password_hash) {
        return Err(UserStoreError::UnexpectedError);
    }
    password_check_outcome(argon2_verify(expected_password_hash, password_candidate))
}

/// A user as a durable store keeps it: the password only as a hash.
#[derive(Debug, Clone, PartialEq)]
pub struct UserRecord {
    pub email: String,
    pub password_hash: String,
    pub requires_2fa: bool,
}

/// The record to insert for `user`, unless a user with its address is already stored.
pub fn prepare_new_user(already_stored: bool, user: &User) -> (r: Result<UserRecord, UserStoreError>)
    ensures
        already_stored ==> r == Err::<UserRecord, UserStoreError>(UserStoreError::UserAlreadyExists),
        !already_stored ==> (r is Ok <==> user.password@.len() <= MAX_PASSWORD_CHARS),
        !already_stored ==> match r {
            Ok(rec) => rec.email@ == user.email@ && rec.requires_2fa == user.requires_2fa
                && argon2_outcome(rec.password_hash@, user.password@) == Some(true)
                && checkable_hash(rec.password_hash@),
            Err(e) => e == UserStoreError::UnexpectedError,
        },
{
    if already_stored {
        return Err(UserStoreError::UserAlreadyExists);
    }
    let password_hash = compute_password_hash(&user.password)?;
    Ok(
        UserRecord {
            email: String::from_str(user.email.as_str()),
            password_hash,
            requires_2fa: user.requires_2fa,
        },
    )
}

/// The user that a stored record describes; a record that breaks the value rules is
/// an internal failure.
pub fn user_from_record(record: &UserRecord) -> (r: Result<User, UserStoreError>)
    ensures
        valid_email(record.email@) && valid_password(record.password_hash@) ==> (r matches Ok(u)
            && u@ == (UserView {
            email: record.email@,
            password: record.password_hash@,
            requires_2fa: record.requires_2fa,
        })),
        !(valid_email(record.email@) && valid_password(record.password_hash@)) ==> r == Err::<
            User,
            UserStoreError,
        >(UserStoreError::UnexpectedError),
{
    let email = match Email::parse(record.email.as_str()) {
        Ok(e) => e,
        Err(_) => {
            return Err(UserStoreError::UnexpectedError);
        },
    };
    let password = match Password::parse(record.password_hash.as_str()) {
        Ok(p) => p,
        Err(_) => {
            return Err(UserStoreError::UnexpectedError);
        },
    };
    Ok(User::new(email, password, record.requires_2fa))
}

/// Validates a candidate password given what the lookup of its user gave.
pub fn validate_stored_user(found: UserStoreResult<User>, password: &Password) -> (r:
    UserStoreResult<()>)
    ensures
        match found {
            Err(e) => r == Err::<(), UserStoreError>(e),
            Ok(u) => if !checkable_hash(u.password@) {
                r == Err::<(), UserStoreError>(UserStoreError::UnexpectedError)
            } else {
                match argon2_outcome(u.password@, password@) {
                    Some(true) => r is Ok,
                    Some(false) => r matches Err(e) && e is InvalidCredentials,
                    None => r == Err::<(), UserStoreError>(UserStoreError::UnexpectedError),
                }
            },
        },
{
    let user = found?;
    verify_password_hash(user.password.as_str(), password.as_str())
}

} // verus!
