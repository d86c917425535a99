//! Login attempt identifiers and two-factor codes.

use vstd::prelude::*;
use vstd::string::{StrSliceExecFns, StringExecFns};

use crate::text::{digit_to_char, is_ascii_digit, push_char};

verus! {

/// Whether `uuid::Uuid::parse_str` accepts the text.
pub uninterp spec fn uuid_parses(s: Seq<char>) -> bool;

/// Relies on `uuid::Uuid::parse_str`: whether a text is accepted depends on the text alone.
#[verifier::external_body]
fn uuid_accepts(s: &str) -> (r: bool)
    ensures
        r == uuid_parses(s@),
{
    uuid::Uuid::parse_str(s).is_ok()
}

/// Relies on `uuid::Uuid::new_v4` and its `Display`: a random version-4 UUID in the
/// 36-character hyphenated form, a form that `parse_str` accepts.
#[verifier::external_body]
fn random_uuid() -> (r: String)
    ensures
        uuid_parses(r@),
        r@.len() == 36,
{
    uuid::Uuid::new_v4().to_string()
}

/// Relies on `rand::Rng::gen_range` over `rand::thread_rng`: a value drawn from `0..10`.
#[verifier::external_body]
fn random_digit() -> (r: u8)
    ensures
        r < 10,
{
    rand::Rng::gen_range(&mut rand::thread_rng(), 0..10u8)
}

/// A two-factor code is exactly six ASCII digits.
pub open spec fn valid_code(s: Seq<char>) -> bool {
    s.len() == 6 && forall|i: int| 0 <= i < s.len() ==> is_ascii_digit(#[trigger] s[i])
}

/// Identifies one two-factor login attempt; always a UUID.
#[derive(Debug, Clone, PartialEq)]
pub struct LoginAttemptId(String);

impl View for LoginAttemptId {
    type V = Seq<char>;

    closed spec fn view(&self) -> Seq<char> {
        self.0@
    }
}

impl LoginAttemptId {
    pub closed spec fn wf(&self) -> bool {
        uuid_parses(self.0@)
    }

    pub fn parse(id: String) -> (r: Result<LoginAttemptId, String>)
        ensures
            r is Ok <==> uuid_parses(id@),
            r matches Ok(a) ==> a@ == id@ && a.wf(),
    {
        if uuid_accepts(id.as_str()) {
            Ok(LoginAttemptId(id))
        } else {
            Err(String::from_str("Invalid login attempt ID. Expected a valid UUID."))
        }
    }

    /// A fresh random identifier.
    pub fn generate() -> (r: LoginAttemptId)
        ensures
            r.wf(),
            uuid_parses(r@),
    {
        LoginAttemptId(random_uuid())
    }

    pub fn as_str(&self) -> (r: &str)
        ensures
            r@ == self@,
    {
        self.0.as_str()
    }

    pub fn duplicate(&self) -> (r: LoginAttemptId)
        ensures
            r@ == self@,
            self.wf() ==> r.wf(),
    {
        LoginAttemptId(self.0.clone())
    }

    pub fn same_as(&self, other: &LoginAttemptId) -> (r: bool)
        ensures
            r == (self@ == other@),
    {
        self.0 == other.0
    }
}

impl Default for LoginAttemptId {
    fn default() -> (r: LoginAttemptId)
        ensures
            r.wf(),
            uuid_parses(r@),
    {
        LoginAttemptId::generate()
    }
}

/// A six-digit two-factor code.
#[derive(Clone, Debug, PartialEq)]
pub struct TwoFACode(String);

impl View for TwoFACode {
    type V = Seq<char>;

    closed spec fn view(&self) -> Seq<char> {
        self.0@
    }
}

impl TwoFACode {
    pub fn parse(code: String) -> (r: Result<TwoFACode, String>)
        ensures
            r is Ok <==> valid_code(code@),
            r matches Ok(c) ==> c@ == code@,
            r matches Err(m) ==> m@ == "Invalid 2FA code. Expected a 6 digit string. Got: \""@
                + code@ + "\""@,
    {
        let n = code.as_str().unicode_len();
        let mut ok = n == 6;
        let mut i: usize = 0;
        while ok && i < n
            invariant
                n == code@.len(),
                i <= n,
                ok ==> n == 6,
                ok ==> forall|j: int| 0 <= j < i ==> is_ascii_digit(#[trigger] code@[j]),
                !ok ==> !valid_code(code@),
            decreases n - i,
        {
            let c = code.as_str().get_char(i);
            if !('0' <= c && c <= '9') {
                ok = false;
            }
            i = i + 1;
        }
        if ok {
            Ok(TwoFACode(code))
        } else {
            let msg = String::from_str("Invalid 2FA code. Expected a 6 digit string. Got: \"");
            let msg = msg.concat(code.as_str());
            Err(msg.concat("\""))
        }
    }

    /// A fresh code of six random digits; digits may repeat.
    pub fn generate() -> (r: TwoFACode)
        ensures
            valid_code(r@),
    {
        let mut s = String::new();
        let mut i: usize = 0;
        while i < 6
            invariant
                i <= 6,
                s@.len() == i,
                forall|j: int| 0 <= j < i ==> is_ascii_digit(#[trigger] s@[j]),
            decreases 6 - i,
        {
            let d = random_digit();
            push_char(&mut s, digit_to_char(d));
            i = i + 1;
        }
        TwoFACode(s)
    }

    pub fn as_str(&self) -> (r: &str)
        ensures
            r@ == self@,
    {
        self.0.as_str()
    }

    pub fn duplicate(&self) -> (r: TwoFACode)
        ensures
            r@ == self@,
    {
        TwoFACode(self.0.clone())
    }

    pub fn same_as(&self, other: &TwoFACode) -> (r: bool)
        ensures
            r == (self@ == other@),
    {
        self.0 == other.0
    }
}

impl Default for TwoFACode {
    fn default() -> (r: TwoFACode)
        ensures
            valid_code(r@),
    {
        TwoFACode::generate()
    }
}

} // verus!
