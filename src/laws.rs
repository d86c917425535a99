//! Properties of the protocols that hold across calls.

use vstd::prelude::*;

use crate::error::AuthAPIError;
use crate::routes::{login_spec, logout_spec, signup_spec, verify_2fa_spec};
use crate::token::{token_check, token_claims, TokenError};
use crate::user::UserView;

verus! {

/// Signing up a new address and then logging in with the same credentials succeeds;
/// without a second factor asked for, the login is a plain authentication.
pub proof fn law_signup_then_login(
    users: Map<Seq<char>, UserView>,
    email: Seq<char>,
    password: Seq<char>,
    requires_2fa: bool,
)
    ensures
        !users.contains_key(email) ==> signup_spec(users, email, password, requires_2fa) is Ok,
        signup_spec(users, email, password, requires_2fa) matches Ok(m) ==> login_spec(
            m,
            email,
            password,
        ) == Ok::<bool, AuthAPIError>(requires_2fa),
{
}

/// A second signup with the same address is refused, and the first record stays the
/// only one for that address.
pub proof fn law_signup_twice(
    users: Map<Seq<char>, UserView>,
    email: Seq<char>,
    password: Seq<char>,
    requires_2fa: bool,
    password2: Seq<char>,
    requires_2fa2: bool,
)
    ensures
        signup_spec(users, email, password, requires_2fa) matches Ok(m) ==> {
            &&& m.dom() == users.dom().insert(email)
            &&& m[email] == (UserView { email, password, requires_2fa })
            &&& signup_spec(m, email, password2, requires_2fa2) == Err::<
                Map<Seq<char>, UserView>,
                AuthAPIError,
            >(AuthAPIError::UserAlreadyExists)
        },
{
    if let Ok(m) = signup_spec(users, email, password, requires_2fa) {
        assert(m.dom() =~= users.dom().insert(email));
    }
}

/// An unknown address and a wrong password get the same refusal.
pub proof fn law_login_refusal_is_uniform(
    users: Map<Seq<char>, UserView>,
    unknown: Seq<char>,
    any_password: Seq<char>,
    known: Seq<char>,
    wrong_password: Seq<char>,
)
    requires
        !users.contains_key(unknown),
        users.contains_key(known),
        users[known].password != wrong_password,
    ensures
        login_spec(users, unknown, any_password) == login_spec(users, known, wrong_password),
        login_spec(users, unknown, any_password) == Err::<bool, AuthAPIError>(
            AuthAPIError::IncorrectCredentials,
        ),
{
}

/// The right answer to a challenge succeeds once; the same answer again is refused.
pub proof fn law_challenge_consumed_once(
    codes: Map<Seq<char>, (Seq<char>, Seq<char>)>,
    email: Seq<char>,
    login_attempt_id: Seq<char>,
    code: Seq<char>,
)
    requires
        codes.contains_key(email),
        codes[email] == (login_attempt_id, code),
    ensures
        verify_2fa_spec(codes, email, login_attempt_id, code) matches Ok(m) && verify_2fa_spec(
            m,
            email,
            login_attempt_id,
            code,
        ) == Err::<Map<Seq<char>, (Seq<char>, Seq<char>)>, AuthAPIError>(
            AuthAPIError::IncorrectCredentials,
        ),
{
}

/// A wrong answer leaves the challenge in place, so the right answer still succeeds.
pub proof fn law_wrong_answer_keeps_challenge(
    codes: Map<Seq<char>, (Seq<char>, Seq<char>)>,
    email: Seq<char>,
    login_attempt_id: Seq<char>,
    code: Seq<char>,
    wrong_id: Seq<char>,
    wrong_code: Seq<char>,
)
    requires
        codes.contains_key(email),
        codes[email] == (login_attempt_id, code),
        (wrong_id, wrong_code) != (login_attempt_id, code),
    ensures
        verify_2fa_spec(codes, email, wrong_id, wrong_code) == Err::<
            Map<Seq<char>, (Seq<char>, Seq<char>)>,
            AuthAPIError,
        >(AuthAPIError::IncorrectCredentials),
        verify_2fa_spec(codes, email, login_attempt_id, code) is Ok,
{
}

/// A token banned by logout never validates again; before its expiry it is refused
/// as revoked. Logout never takes a ban away.
pub proof fn law_logout_revokes(
    key: Seq<char>,
    banned: Map<Seq<char>, Seq<char>>,
    now: nat,
    token: Seq<char>,
    later: nat,
)
    ensures
        logout_spec(key, banned, now, token) matches Ok(m) ==> {
            &&& token_check(key, m, later, token) is Err
            &&& (token_claims(key, token) matches Some(c) && later < c.1 ==> token_check(
                key,
                m,
                later,
                token,
            ) == Err::<(Seq<char>, nat), TokenError>(TokenError::Revoked))
            &&& forall|t: Seq<char>| #[trigger] banned.contains_key(t) ==> m.contains_key(t)
        },
{
}

/// A token with a good tag validates until its expiry, as long as it is not banned.
pub proof fn law_issued_token_valid(
    key: Seq<char>,
    banned: Map<Seq<char>, Seq<char>>,
    now: nat,
    token: Seq<char>,
    sub: Seq<char>,
    exp: nat,
)
    requires
        token_claims(key, token) == Some((sub, exp)),
    ensures
        now < exp && !banned.contains_key(token) ==> token_check(key, banned, now, token) == Ok::<
            (Seq<char>, nat),
            TokenError,
        >((sub, exp)),
        exp <= now ==> token_check(key, banned, now, token) == Err::<(Seq<char>, nat), TokenError>(
            TokenError::Expired,
        ),
{
}

/// A token that a login or a two-factor answer hands out at `now` validates at that
/// same moment, unless it was banned: its codec's lifetime is positive.
pub proof fn law_fresh_token_validates(
    key: Seq<char>,
    ttl: nat,
    banned: Map<Seq<char>, Seq<char>>,
    now: nat,
    token: Seq<char>,
    sub: Seq<char>,
)
    requires
        ttl > 0,
        token_claims(key, token) == Some((sub, now + ttl)),
        !banned.contains_key(token),
    ensures
        token_check(key, banned, now, token) == Ok::<(Seq<char>, nat), TokenError>(
            (sub, (now + ttl) as nat),
        ),
{
}

} // verus!
