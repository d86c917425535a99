//! Signed session tokens.
//!
//! A token reads `<tag>.<expiry>.<nonce>.<subject>`: the expiry (seconds) and a
//! random nonce are sixteen lowercase hex digits each, the subject is the email
//! address, and the tag is the HMAC-SHA256 of `<expiry>.<nonce>.<subject>` under the
//! signing secret, in lowercase hex.

use vstd::prelude::*;
use vstd::string::{StrSliceExecFns, StringExecFns};

use crate::stores::BannedTokenStore;
use crate::text::push_char;
use crate::user::Email;

verus! {

/// HMAC-SHA256 of the UTF-8 bytes of `msg` under the UTF-8 bytes of `key`.
pub uninterp spec fn hmac_sha256_of(key: Seq<char>, msg: Seq<char>) -> Seq<u8>;

/// Relies on hmac's `Hmac<Sha256>`: `new_from_slice` takes a key of any length, and
/// `update` then `finalize` give the 32-byte tag, a function of key and message alone.
#[verifier::external_body]
fn hmac_sha256(key: &str, msg: &str) -> (r: Vec<u8>)
    ensures
        r@ == hmac_sha256_of(key@, msg@),
        r@.len() == 32,
{
    match <hmac::Hmac<sha2::Sha256> as hmac::Mac>::new_from_slice(key.as_bytes()) {
        Ok(mut mac) => {
            hmac::Mac::update(&mut mac, msg.as_bytes());
            hmac::Mac::finalize(mac).into_bytes().to_vec()
        },
        Err(_) => Vec::new(),
    }
}

/// Lifetime of a session token, in seconds.
pub const TOKEN_TTL_SECONDS: u64 = 600;

/// Number of hex digits of the tag.
pub const TAG_LEN: usize = 64;

/// Number of hex digits of the expiry, and of the nonce.
pub const EXPIRY_LEN: usize = 16;

/// Where the nonce starts.
pub const NONCE_START: usize = 82;

/// Where the subject starts.
pub const SUBJECT_START: usize = 99;

pub open spec fn hex_char(d: nat) -> char {
    if d < 10 {
        (d + 48) as char
    } else {
        (d + 87) as char
    }
}

pub open spec fn is_hex_digit(c: char) -> bool {
    ('0' <= c && c <= '9') || ('a' <= c && c <= 'f')
}

pub open spec fn hex_digit_value(c: char) -> nat {
    if '0' <= c && c <= '9' {
        (c as nat - 48) as nat
    } else {
        (c as nat - 87) as nat
    }
}

/// Lowercase hex of a byte string, two digits per byte.
pub open spec fn hex_bytes(b: Seq<u8>) -> Seq<char>
    decreases b.len(),
{
    if b.len() == 0 {
        Seq::empty()
    } else {
        hex_bytes(b.drop_last()) + seq![hex_char(b.last() as nat / 16), hex_char(b.last() as nat % 16)]
    }
}

/// The lowest `k` hex digits of `n`, most significant first.
pub open spec fn hex_fixed(n: nat, k: nat) -> Seq<char>
    decreases k,
{
    if k == 0 {
        Seq::empty()
    } else {
        hex_fixed(n / 16, (k - 1) as nat).push(hex_char(n % 16))
    }
}

/// The number that hex digits spell, most significant first.
pub open spec fn hex_value(s: Seq<char>) -> nat
    decreases s.len(),
{
    if s.len() == 0 {
        0
    } else {
        hex_value(s.drop_last()) * 16 + hex_digit_value(s.last())
    }
}

pub open spec fn pow16(k: nat) -> nat
    decreases k,
{
    if k == 0 {
        1
    } else {
        16 * pow16((k - 1) as nat)
    }
}

pub open spec fn all_hex(s: Seq<char>) -> bool {
    forall|i: int| 0 <= i < s.len() ==> is_hex_digit(#[trigger] s[i])
}

/// The signed part of a token: expiry and subject.
pub open spec fn token_payload(sub: Seq<char>, exp: nat, nonce: nat) -> Seq<char> {
    hex_fixed(exp, EXPIRY_LEN as nat) + seq!['.'] + hex_fixed(nonce, EXPIRY_LEN as nat) + seq!['.']
        + sub
}

/// The token issued to `sub`, expiring at `exp`, with `nonce`, under `key`.
pub open spec fn encode_token(key: Seq<char>, sub: Seq<char>, exp: nat, nonce: nat) -> Seq<char> {
    hex_bytes(hmac_sha256_of(key, token_payload(sub, exp, nonce))) + seq!['.'] + token_payload(
        sub,
        exp,
        nonce,
    )
}

/// The part of a token that its tag covers: all after the tag and its dot.
pub open spec fn signed_part(t: Seq<char>) -> Seq<char> {
    if t.len() > TAG_LEN {
        t.subrange(TAG_LEN + 1, t.len() as int)
    } else {
        Seq::empty()
    }
}

/// Subject and expiry of a token whose layout is right and whose tag reads `tag`.
pub open spec fn claims_with_tag(tag: Seq<u8>, t: Seq<char>) -> Option<(Seq<char>, nat)> {
    let n = t.len();
    if n >= SUBJECT_START && t[TAG_LEN as int] == '.' && t[TAG_LEN + EXPIRY_LEN + 1] == '.'
        && t[SUBJECT_START - 1] == '.' && all_hex(t.subrange(TAG_LEN + 1, TAG_LEN + EXPIRY_LEN + 1))
        && all_hex(t.subrange(NONCE_START as int, NONCE_START + EXPIRY_LEN)) && t.subrange(
        0,
        TAG_LEN as int,
    ) == hex_bytes(tag) {
        Some(
            (
                t.subrange(SUBJECT_START as int, n as int),
                hex_value(t.subrange(TAG_LEN + 1, TAG_LEN + EXPIRY_LEN + 1)),
            ),
        )
    } else {
        None
    }
}

/// Subject and expiry of a token whose layout and tag are right under `key`.
pub open spec fn token_claims(key: Seq<char>, t: Seq<char>) -> Option<(Seq<char>, nat)> {
    claims_with_tag(hmac_sha256_of(key, signed_part(t)), t)
}

/// Why a token is refused.
#[derive(Debug, Clone, Copy, PartialEq, Eq, Structural)]
pub enum TokenError {
    InvalidSignature,
    Expired,
    Revoked,
}

/// The outcome of validating `t` at time `now` against the banned tokens, where the
/// signed part of `t` has the tag `tag`.
pub open spec fn check_with_tag(
    tag: Seq<u8>,
    banned: Map<Seq<char>, Seq<char>>,
    now: nat,
    t: Seq<char>,
) -> Result<(Seq<char>, nat), TokenError> {
    match claims_with_tag(tag, t) {
        None => Err(TokenError::InvalidSignature),
        Some(c) => if c.1 <= now {
            Err(TokenError::Expired)
        } else if banned.contains_key(t) {
            Err(TokenError::Revoked)
        } else {
            Ok(c)
        },
    }
}

/// The outcome of validating `t` under `key` at time `now` against the banned tokens.
pub open spec fn token_check(
    key: Seq<char>,
    banned: Map<Seq<char>, Seq<char>>,
    now: nat,
    t: Seq<char>,
) -> Result<(Seq<char>, nat), TokenError> {
    check_with_tag(hmac_sha256_of(key, signed_part(t)), banned, now, t)
}

/// What a valid token says.
#[derive(Debug, Clone, PartialEq)]
pub struct Claims {
    pub sub: String,
    pub exp: u64,
}

pub proof fn lemma_hex_value_bound(s: Seq<char>)
    requires
        all_hex(s),
    ensures
        hex_value(s) < pow16(s.len()),
    decreases s.len(),
{
    if s.len() > 0 {
        let p = s.drop_last();
        assert(all_hex(p)) by {
            assert forall|i: int| 0 <= i < p.len() implies is_hex_digit(#[trigger] p[i]) by {
                assert(p[i] == s[i]);
            }
        }
        lemma_hex_value_bound(p);
        assert(is_hex_digit(s[s.len() - 1]));
        let a = hex_value(p);
        let d = hex_digit_value(s.last());
        let q = pow16(p.len());
        assert(d < 16);
        assert(a * 16 + d < 16 * q) by (nonlinear_arith)
            requires
                a < q,
                d < 16,
        ;
    }
}

proof fn lemma_hex_char_digit(d: nat)
    requires
        d < 16,
    ensures
        is_hex_digit(hex_char(d)),
        hex_digit_value(hex_char(d)) == d,
{
}

proof fn lemma_hex_fixed(n: nat, k: nat)
    ensures
        hex_fixed(n, k).len() == k,
        all_hex(hex_fixed(n, k)),
        hex_value(hex_fixed(n, k)) == n % pow16(k),
    decreases k,
{
    if k == 0 {
    } else {
        let p = pow16((k - 1) as nat);
        lemma_hex_fixed(n / 16, (k - 1) as nat);
        lemma_hex_char_digit(n % 16);
        let s = hex_fixed(n, k);
        assert(s.drop_last() == hex_fixed(n / 16, (k - 1) as nat));
        assert(all_hex(s)) by {
            assert forall|i: int| 0 <= i < s.len() implies is_hex_digit(#[trigger] s[i]) by {
                if i < s.len() - 1 {
                    assert(s[i] == hex_fixed(n / 16, (k - 1) as nat)[i]);
                }
            }
        }
        assert(p > 0) by {
            lemma_pow16_mono(0, (k - 1) as nat);
        }
        vstd::arithmetic::div_mod::lemma_breakdown(n as int, 16, p as int);
        assert(16 * ((n / 16) % p) == ((n / 16) % p) * 16) by (nonlinear_arith);
    }
}

proof fn lemma_hex_bytes_len(b: Seq<u8>)
    ensures
        hex_bytes(b).len() == 2 * b.len(),
    decreases b.len(),
{
    if b.len() > 0 {
        lemma_hex_bytes_len(b.drop_last());
    }
}

proof fn lemma_u64_below_pow16(n: u64)
    ensures
        (n as nat) % pow16(EXPIRY_LEN as nat) == n as nat,
{
    reveal_with_fuel(pow16, 17);
    assert(pow16(16) == 0x10000000000000000);
    vstd::arithmetic::div_mod::lemma_small_mod(n as nat, pow16(16));
}

fn hex_char_of(d: u8) -> (c: char)
    requires
        d < 16,
    ensures
        c == hex_char(d as nat),
{
    if d < 10 {
        ((d + 48) as u8) as char
    } else {
        ((d + 87) as u8) as char
    }
}

/// Appends the lowercase hex of `b`.
fn push_hex_bytes(s: &mut String, b: &Vec<u8>)
    ensures
        final(s)@ == old(s)@ + hex_bytes(b@),
{
    let mut i: usize = 0;
    while i < b.len()
        invariant
            i <= b@.len(),
            s@ == old(s)@ + hex_bytes(b@.subrange(0, i as int)),
        decreases b@.len() - i,
    {
        let x = b[i];
        push_char(s, hex_char_of(x / 16));
        push_char(s, hex_char_of(x % 16));
        let ghost pre = b@.subrange(0, i as int);
        i = i + 1;
        assert(b@.subrange(0, i as int).drop_last() == pre);
    }
    assert(b@.subrange(0, b@.len() as int) == b@);
}

/// Appends the lowest `k` hex digits of `n`.
fn push_hex_fixed(s: &mut String, n: u64, k: usize)
    ensures
        final(s)@ == old(s)@ + hex_fixed(n as nat, k as nat),
    decreases k,
{
    if k > 0 {
        push_hex_fixed(s, n / 16, k - 1);
        push_char(s, hex_char_of((n % 16) as u8));
    }
}

/// Reads the hex digits of `t` in `[from, from + EXPIRY_LEN)`.
fn read_hex16(t: &str, from: usize) -> (r: Option<u64>)
    requires
        from <= NONCE_START,
        from + EXPIRY_LEN <= t@.len(),
    ensures
        all_hex(t@.subrange(from as int, from + EXPIRY_LEN)) <==> r is Some,
        r matches Some(v) ==> v == hex_value(t@.subrange(from as int, from + EXPIRY_LEN)),
{
    let ghost digits = t@.subrange(from as int, from + EXPIRY_LEN);
    let mut acc: u64 = 0;
    let mut i: usize = 0;
    while i < EXPIRY_LEN
        invariant
            from <= NONCE_START,
            from + EXPIRY_LEN <= t@.len(),
            digits == t@.subrange(from as int, from + EXPIRY_LEN),
            i <= EXPIRY_LEN,
            all_hex(digits.subrange(0, i as int)),
            acc == hex_value(digits.subrange(0, i as int)),
        decreases EXPIRY_LEN - i,
    {
        let c = t.get_char(from + i);
        let d: u64 = if '0' <= c && c <= '9' {
            (c as u64) - 48
        } else if 'a' <= c && c <= 'f' {
            (c as u64) - 87
        } else {
            assert(!all_hex(digits)) by {
                assert(digits[i as int] == c);
            }
            return None;
        };
        let ghost pre = digits.subrange(0, i as int);
        let ghost next = digits.subrange(0, i + 1);
        assert(next.drop_last() == pre);
        assert(next.last() == c);
        proof {
            lemma_hex_value_bound(pre);
            assert(pow16(i as nat) <= pow16(15)) by {
                lemma_pow16_mono(i as nat, 15);
            }
            reveal_with_fuel(pow16, 16);
            assert(pow16(15) == 0x1000000000000000);
        }
        assert(acc * 16 + d <= 0xffffffffffffffff) by (nonlinear_arith)
            requires
                acc < 0x1000000000000000,
                d < 16,
        ;
        acc = acc * 16 + d;
        i = i + 1;
        assert(all_hex(next)) by {
            assert forall|j: int| 0 <= j < next.len() implies is_hex_digit(#[trigger] next[j]) by {
                if j < pre.len() {
                    assert(next[j] == pre[j]);
                }
            }
        }
    }
    assert(digits.subrange(0, EXPIRY_LEN as int) == digits);
    Some(acc)
}

proof fn lemma_pow16_mono(a: nat, b: nat)
    requires
        a <= b,
    ensures
        pow16(a) <= pow16(b),
    decreases b,
{
    if a < b {
        lemma_pow16_mono(a, (b - 1) as nat);
    }
}

/// Whether the first `TAG_LEN` characters of `token` are `expected`; every position is
/// compared, whatever the earlier ones gave.
fn same_prefix(token: &str, expected: &str) -> (r: bool)
    requires
        token@.len() >= TAG_LEN,
    ensures
        r == (token@.subrange(0, TAG_LEN as int) == expected@),
{
    if expected.unicode_len() != TAG_LEN {
        return false;
    }
    let mut diff: u32 = 0;
    let mut i: usize = 0;
    while i < TAG_LEN
        invariant
            token@.len() >= TAG_LEN,
            expected@.len() == TAG_LEN,
            i <= TAG_LEN,
            diff == 0 <==> forall|j: int| 0 <= j < i ==> token@[j] == expected@[j],
        decreases TAG_LEN - i,
    {
        let a = token.get_char(i) as u32;
        let b = expected.get_char(i) as u32;
        let d = a ^ b;
        assert(d == 0 <==> a == b) by (bit_vector)
            requires
                d == a ^ b,
        ;
        let old_diff = diff;
        diff = diff | d;
        assert(diff == 0 <==> (old_diff == 0 && d == 0)) by (bit_vector)
            requires
                diff == old_diff | d,
        ;
        i = i + 1;
    }
    assert((diff == 0) <==> token@.subrange(0, TAG_LEN as int) =~= expected@);
    diff == 0
}

/// A token from the tag of its signed part and that part.
pub fn encode_signed(tag: &Vec<u8>, payload: &str) -> (r: String)
    ensures
        r@ == hex_bytes(tag@) + seq!['.'] + payload@,
{
    let mut token = String::new();
    push_hex_bytes(&mut token, tag);
    push_char(&mut token, '.');
    token.concat(payload)
}

/// Validation once the tag of the token's signed part is known.
pub fn validate_with_tag<B: BannedTokenStore>(token: &str, tag: &Vec<u8>, now: u64, banned: &B) -> (r:
    Result<Claims, TokenError>)
    requires
        banned.inv(),
    ensures
        match check_with_tag(tag@, banned.banned(), now as nat, token@) {
            Ok(c) => r matches Ok(cl) && cl.sub@ == c.0 && cl.exp == c.1,
            Err(e) => r == Err::<Claims, TokenError>(e),
        },
{
    let n = token.unicode_len();
    if n < SUBJECT_START {
        return Err(TokenError::InvalidSignature);
    }
    if token.get_char(TAG_LEN) != '.' || token.get_char(TAG_LEN + EXPIRY_LEN + 1) != '.'
        || token.get_char(SUBJECT_START - 1) != '.' {
        return Err(TokenError::InvalidSignature);
    }
    let exp = match read_hex16(token, TAG_LEN + 1) {
        Some(v) => v,
        None => {
            return Err(TokenError::InvalidSignature);
        },
    };
    if read_hex16(token, NONCE_START).is_none() {
        return Err(TokenError::InvalidSignature);
    }
    let mut expected = String::new();
    push_hex_bytes(&mut expected, tag);
    if !same_prefix(token, expected.as_str()) {
        return Err(TokenError::InvalidSignature);
    }
    if exp <= now {
        return Err(TokenError::Expired);
    }
    if banned.verify(token).is_banned() {
        return Err(TokenError::Revoked);
    }
    Ok(Claims { sub: String::from_str(token.substring_char(SUBJECT_START, n)), exp })
}

/// Relies on `rand::random::<u64>`: a value drawn from the thread-local generator;
/// nothing is promised of it.
#[verifier::external_body]
fn random_nonce() -> (r: u64) {
    rand::random::<u64>()
}

/// Issues and validates session tokens under one signing secret.
pub struct TokenCodec {
    secret: String,
    ttl: u64,
}

impl TokenCodec {
    /// Tokens live for a positive number of seconds.
    #[verifier::type_invariant]
    spec fn ttl_positive(&self) -> bool {
        self.ttl > 0
    }

    pub closed spec fn key(&self) -> Seq<char> {
        self.secret@
    }

    pub closed spec fn ttl(&self) -> nat {
        self.ttl as nat
    }

    /// Lifetime of the tokens, in seconds; never zero.
    pub fn ttl_seconds(&self) -> (r: u64)
        ensures
            r == self.ttl(),
            r > 0,
    {
        proof {
            use_type_invariant(self);
        }
        self.ttl
    }

    pub fn new(secret: String, ttl: u64) -> (r: TokenCodec)
        requires
            ttl > 0,
        ensures
            r.key() == secret@,
            r.ttl() == ttl,
    {
        TokenCodec { secret, ttl }
    }

    /// A token for `email` issued at `now` with the given nonce, expiring `ttl` seconds
    /// later.
    pub fn issue_with_nonce(&self, email: &Email, now: u64, nonce: u64) -> (r: String)
        requires
            now + self.ttl() <= u64::MAX,
        ensures
            r@ == encode_token(self.key(), email@, (now + self.ttl()) as nat, nonce as nat),
            token_claims(self.key(), r@) == Some((email@, (now + self.ttl()) as nat)),
    {
        let exp = now + self.ttl;
        let mut payload = String::new();
        push_hex_fixed(&mut payload, exp, EXPIRY_LEN);
        push_char(&mut payload, '.');
        push_hex_fixed(&mut payload, nonce, EXPIRY_LEN);
        push_char(&mut payload, '.');
        let payload = payload.concat(email.as_str());
        assert(payload@ == token_payload(email@, exp as nat, nonce as nat));
        let tag = hmac_sha256(self.secret.as_str(), payload.as_str());
        let token = encode_signed(&tag, payload.as_str());
        assert(token@ =~= encode_token(self.key(), email@, exp as nat, nonce as nat));
        proof {
            let t = token@;
            let n = t.len();
            lemma_hex_fixed(exp as nat, EXPIRY_LEN as nat);
            lemma_hex_fixed(nonce as nat, EXPIRY_LEN as nat);
            lemma_hex_bytes_len(tag@);
            lemma_u64_below_pow16(exp);
            let hx = hex_fixed(exp as nat, EXPIRY_LEN as nat);
            let hn = hex_fixed(nonce as nat, EXPIRY_LEN as nat);
            assert(t.subrange(0, TAG_LEN as int) =~= hex_bytes(tag@));
            assert(t.subrange(TAG_LEN + 1, n as int) =~= payload@);
            assert(t.subrange(TAG_LEN + 1, TAG_LEN + EXPIRY_LEN + 1) =~= hx);
            assert(t.subrange(NONCE_START as int, NONCE_START + EXPIRY_LEN) =~= hn);
            assert(t.subrange(SUBJECT_START as int, n as int) =~= email@);
            assert(t[TAG_LEN as int] == '.');
            assert(t[TAG_LEN + EXPIRY_LEN + 1] == payload@[EXPIRY_LEN as int]);
            assert(t[SUBJECT_START - 1] == payload@[2 * EXPIRY_LEN + 1]);
        }
        token
    }

    /// A token for `email` issued at `now` with a random nonce, expiring `ttl` seconds
    /// later.
    pub fn issue(&self, email: &Email, now: u64) -> (r: String)
        requires
            now + self.ttl() <= u64::MAX,
        ensures
            token_claims(self.key(), r@) == Some((email@, (now + self.ttl()) as nat)),
            exists|nonce: nat| r@ == #[trigger] encode_token(self.key(), email@, (now + self.ttl()) as nat, nonce),
    {
        let nonce = random_nonce();
        self.issue_with_nonce(email, now, nonce)
    }

    /// Checks the layout and tag of `token`, then its expiry against `now`, then the
    /// banned tokens.
    pub fn validate<B: BannedTokenStore>(&self, token: &str, now: u64, banned: &B) -> (r: Result<
        Claims,
        TokenError,
    >)
        requires
            banned.inv(),
        ensures
            match token_check(self.key(), banned.banned(), now as nat, token@) {
                Ok(c) => r matches Ok(cl) && cl.sub@ == c.0 && cl.exp == c.1,
                Err(e) => r == Err::<Claims, TokenError>(e),
            },
    {
        let n = token.unicode_len();
        let signed = if n > TAG_LEN {
            token.substring_char(TAG_LEN + 1, n)
        } else {
            proof {
                reveal_strlit("");
            }
            ""
        };
        let tag = hmac_sha256(self.secret.as_str(), signed);
        validate_with_tag(token, &tag, now, banned)
    }
}

} // verus!
