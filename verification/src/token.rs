//! Session tokens: claims about an account, signed with the process key.
//!
//! A token is hexadecimal text. Its first `2 * CLAIMS_LEN` digits are the
//! claims, the rest is their HMAC-SHA256 tag under the signing key. Nothing
//! is kept on the server: whether a token is good is decided by its
//! signature and its expiry alone.

use vstd::prelude::*;
use vstd::bytes::{
    lemma_auto_spec_u64_to_from_le_bytes, spec_u64_from_le_bytes, spec_u64_to_le_bytes,
    u64_from_le_bytes, u64_to_le_bytes,
};
use vstd::slice::slice_subrange;
use vstd::string::StringExecFns;
use hmac::{Hmac, Mac};
use sha2::Sha256;
use crate::account::Account;
use crate::error::{SigningError, TokenError};
use crate::hex::{hex_bytes, hex_text, lemma_hex_round_trip, lemma_hex_text_concat};

verus! {

/// Number of bytes that the claims take in a token.
pub const CLAIMS_LEN: usize = 24;

/// What a token says: whose it is, when it was issued and when it ends.
/// Times are seconds since the epoch.
#[derive(Clone, Copy, Debug, PartialEq, Eq, Structural)]
pub struct Claims {
    /// The id of the account.
    pub sub: u64,
    /// Issued at.
    pub iat: u64,
    /// Expiry: the token is good strictly before this time.
    pub exp: u64,
}

/// The HMAC-SHA256 tag of `message` under `key`, as the `hmac` and `sha2`
/// crates compute it.
pub uninterp spec fn hmac_sha256(key: Seq<u8>, message: Seq<u8>) -> Seq<u8>;

/// Runs `Hmac::<Sha256>::new_from_slice`, `chain_update` and `finalize`
/// from the `hmac` crate over `key` and `message`.
///
/// Trusted: the tag is a function of the key and the message alone. The
/// constructor accepts a key of any length, so the `expect` does not fire.
#[verifier::external_body]
fn hmac_sha256_tag(key: &[u8], message: &[u8]) -> (r: Vec<u8>)
    ensures
        r@ == hmac_sha256(key@, message@),
{
    Hmac::<Sha256>::new_from_slice(key).expect("HMAC takes a key of any length").chain_update(
        message,
    ).finalize().into_bytes().to_vec()
}

/// Reads the system clock through `std::time::SystemTime::now`, as whole
/// seconds since the epoch. Nothing is claimed about the value.
#[verifier::external_body]
fn unix_now() -> u64 {
    std::time::SystemTime::now().duration_since(std::time::UNIX_EPOCH).map(|d| d.as_secs())
        .unwrap_or(0)
}

/// The claims as bytes: three little-endian 64-bit numbers.
pub open spec fn claims_bytes(c: Claims) -> Seq<u8> {
    spec_u64_to_le_bytes(c.sub) + spec_u64_to_le_bytes(c.iat) + spec_u64_to_le_bytes(c.exp)
}

/// The claims that `CLAIMS_LEN` bytes stand for.
pub open spec fn claims_of_bytes(b: Seq<u8>) -> Claims {
    Claims {
        sub: spec_u64_from_le_bytes(b.subrange(0, 8)),
        iat: spec_u64_from_le_bytes(b.subrange(8, 16)),
        exp: spec_u64_from_le_bytes(b.subrange(16, 24)),
    }
}

/// The token for `c` under `key`.
pub open spec fn token_text(key: Seq<u8>, c: Claims) -> Seq<char> {
    hex_text(claims_bytes(c)) + hex_text(hmac_sha256(key, claims_bytes(c)))
}

/// What signing for the account `sub` at time `now` gives: a token that
/// runs for `ttl` seconds, unless there is no key or the expiry does not
/// fit in 64 bits.
pub open spec fn signed_token(key: Seq<u8>, ttl: u64, sub: u64, now: u64) -> Result<
    Seq<char>,
    SigningError,
> {
    if key.len() == 0 {
        Err(SigningError::KeyUnavailable)
    } else if now + ttl > u64::MAX {
        Err(SigningError::ClaimsNotEncodable)
    } else {
        Ok(token_text(key, Claims { sub, iat: now, exp: (now + ttl) as u64 }))
    }
}

/// What reading `text` at time `now` gives: the claims, if the text is a
/// token signed with `key` that has not expired, and otherwise the first
/// reason that speaks against it.
pub open spec fn read_token(key: Seq<u8>, text: Seq<char>, now: u64) -> Result<Claims, TokenError> {
    if key.len() == 0 {
        Err(TokenError::KeyUnavailable)
    } else {
        match hex_bytes(text) {
            None => Err(TokenError::Malformed),
            Some(bytes) => {
                if bytes.len() < CLAIMS_LEN {
                    Err(TokenError::Malformed)
                } else {
                    let body = bytes.subrange(0, CLAIMS_LEN as int);
                    let tag = bytes.subrange(CLAIMS_LEN as int, bytes.len() as int);
                    let claims = claims_of_bytes(body);
                    if tag != hmac_sha256(key, body) {
                        Err(TokenError::BadSignature)
                    } else if claims.exp <= now {
                        Err(TokenError::Expired)
                    } else {
                        Ok(claims)
                    }
                }
            },
        }
    }
}

/// The claims read back from their bytes.
pub proof fn lemma_claims_round_trip(c: Claims)
    ensures
        claims_bytes(c).len() == CLAIMS_LEN,
        claims_of_bytes(claims_bytes(c)) == c,
{
    lemma_auto_spec_u64_to_from_le_bytes();
    let b = claims_bytes(c);
    assert(b.subrange(0, 8) =~= spec_u64_to_le_bytes(c.sub));
    assert(b.subrange(8, 16) =~= spec_u64_to_le_bytes(c.iat));
    assert(b.subrange(16, 24) =~= spec_u64_to_le_bytes(c.exp));
}

/// Reading a token under the key that signed it gives back the claims it
/// was signed for, as long as it has not expired.
pub proof fn lemma_token_round_trip(key: Seq<u8>, c: Claims, now: u64)
    requires
        key.len() > 0,
        now < c.exp,
    ensures
        read_token(key, token_text(key, c), now) == Ok::<Claims, TokenError>(c),
{
    let body = claims_bytes(c);
    let tag = hmac_sha256(key, body);
    lemma_claims_round_trip(c);
    lemma_hex_text_concat(body, tag);
    lemma_hex_round_trip(body + tag);
    let bytes = body + tag;
    assert(bytes.subrange(0, CLAIMS_LEN as int) =~= body);
    assert(bytes.subrange(CLAIMS_LEN as int, bytes.len() as int) =~= tag);
}

/// A token issued for an account resolves to that account's id at any time
/// before its expiry.
pub proof fn lemma_signed_then_read(key: Seq<u8>, ttl: u64, sub: u64, issued: u64, now: u64)
    requires
        signed_token(key, ttl, sub, issued) is Ok,
        now < issued + ttl,
    ensures
        read_token(key, signed_token(key, ttl, sub, issued)->Ok_0, now) matches Ok(c) && c.sub
            == sub,
{
    lemma_token_round_trip(key, Claims { sub, iat: issued, exp: (issued + ttl) as u64 }, now);
}

/// A bearer token as handed to a client.
pub struct SessionToken {
    text: String,
}

impl View for SessionToken {
    type V = Seq<char>;

    closed spec fn view(&self) -> Seq<char> {
        self.text@
    }
}

impl SessionToken {
    /// Takes the text of a token as a client presented it.
    pub fn from_text(text: String) -> (r: Self)
        ensures
            r@ == text@,
    {
        SessionToken { text }
    }

    /// The text to hand to the client.
    pub fn as_str(&self) -> (r: &str)
        ensures
            r@ == self@,
    {
        self.text.as_str()
    }

    /// Gives up the text.
    pub fn into_text(self) -> (r: String)
        ensures
            r@ == self@,
    {
        self.text
    }
}

impl Clone for SessionToken {
    fn clone(&self) -> (r: Self)
        ensures
            r@ == self@,
    {
        SessionToken { text: self.text.clone() }
    }
}

/// Writes the claims as `CLAIMS_LEN` bytes.
pub fn encode_claims(c: Claims) -> (r: Vec<u8>)
    ensures
        r@ == claims_bytes(c),
        r@.len() == CLAIMS_LEN,
{
    let mut out = u64_to_le_bytes(c.sub);
    let mut iat = u64_to_le_bytes(c.iat);
    let mut exp = u64_to_le_bytes(c.exp);
    out.append(&mut iat);
    out.append(&mut exp);
    out
}

/// Reads claims from exactly `CLAIMS_LEN` bytes; `None` for any other
/// length.
pub fn decode_claims(b: &[u8]) -> (r: Option<Claims>)
    ensures
        r == if b@.len() == CLAIMS_LEN {
            Some(claims_of_bytes(b@))
        } else {
            None
        },
{
    if b.len() != CLAIMS_LEN {
        return None;
    }
    Some(
        Claims {
            sub: u64_from_le_bytes(slice_subrange(b, 0, 8)),
            iat: u64_from_le_bytes(slice_subrange(b, 8, 16)),
            exp: u64_from_le_bytes(slice_subrange(b, 16, 24)),
        },
    )
}

/// Whether two byte strings are equal. Every byte is looked at, whatever
/// the earlier ones were, so the time taken does not tell where they differ.
pub fn same_bytes(a: &[u8], b: &[u8]) -> (r: bool)
    ensures
        r == (a@ == b@),
{
    if a.len() != b.len() {
        return false;
    }
    let mut diff: u8 = 0;
    let mut k: usize = 0;
    while k < a.len()
        invariant
            a@.len() == b@.len(),
            k <= a@.len(),
            diff == 0 <==> a@.subrange(0, k as int) =~= b@.subrange(0, k as int),
        decreases a@.len() - k,
    {
        let x = a[k];
        let y = b[k];
        assert((diff | (x ^ y)) == 0 <==> diff == 0 && x == y) by (bit_vector);
        proof {
            let head_a = a@.subrange(0, k + 1);
            let head_b = b@.subrange(0, k + 1);
            assert(head_a =~= a@.subrange(0, k as int).push(x));
            assert(head_b =~= b@.subrange(0, k as int).push(y));
            if head_a == head_b {
                assert(head_a[k as int] == head_b[k as int]);
                assert(a@.subrange(0, k as int) =~= head_a.subrange(0, k as int));
                assert(b@.subrange(0, k as int) =~= head_b.subrange(0, k as int));
            }
        }
        diff = diff | (x ^ y);
        k += 1;
    }
    assert(a@.subrange(0, k as int) =~= a@);
    assert(b@.subrange(0, k as int) =~= b@);
    diff == 0
}

/// The mathematical content of a signing outcome.
pub open spec fn signing_view(r: Result<SessionToken, SigningError>) -> Result<
    Seq<char>,
    SigningError,
> {
    match r {
        Ok(t) => Ok(t@),
        Err(e) => Err(e),
    }
}

/// Signs and reads session tokens with one secret key. It holds no state
/// that a call changes.
pub struct TokenSigner {
    key: Vec<u8>,
    ttl_secs: u64,
}

impl TokenSigner {
    /// The secret key.
    pub closed spec fn key(&self) -> Seq<u8> {
        self.key@
    }

    /// How many seconds a token runs.
    pub closed spec fn ttl(&self) -> u64 {
        self.ttl_secs
    }

    /// A signer with the given key, whose tokens run for `ttl_secs`
    /// seconds. An empty key stands for a key that could not be loaded.
    pub fn new(key: Vec<u8>, ttl_secs: u64) -> (r: Self)
        ensures
            r.key() == key@,
            r.ttl() == ttl_secs,
    {
        TokenSigner { key, ttl_secs }
    }

    /// A signer of its own with the same key and lifetime, for use after
    /// the shared state was let go.
    pub fn duplicate(&self) -> (r: Self)
        ensures
            r.key() == self.key(),
            r.ttl() == self.ttl(),
    {
        TokenSigner { key: self.key.clone(), ttl_secs: self.ttl_secs }
    }

    /// Signs a token for `account`, issued at `now`.
    pub fn sign_at(&self, account: &Account, now: u64) -> (r: Result<SessionToken, SigningError>)
        ensures
            signing_view(r) == signed_token(self.key(), self.ttl(), account@.id, now),
    {
        if self.key.len() == 0 {
            return Err(SigningError::KeyUnavailable);
        }
        if self.ttl_secs > u64::MAX - now {
            return Err(SigningError::ClaimsNotEncodable);
        }
        let claims = Claims { sub: account.id(), iat: now, exp: now + self.ttl_secs };
        let body = encode_claims(claims);
        let tag = hmac_sha256_tag(self.key.as_slice(), body.as_slice());
        let mut text = crate::hex::encode(body.as_slice());
        let tag_text = crate::hex::encode(tag.as_slice());
        text.append(tag_text.as_str());
        Ok(SessionToken { text })
    }

    /// Signs a token for `account`, issued now. The clock decides the
    /// issue time; everything else is as in `sign_at`.
    pub fn sign(&self, account: &Account) -> (r: Result<SessionToken, SigningError>)
        ensures
            exists|now: u64|
                signing_view(r) == #[trigger] signed_token(
                    self.key(),
                    self.ttl(),
                    account@.id,
                    now,
                ),
    {
        let now = unix_now();
        self.sign_at(account, now)
    }

    /// Reads a presented token at time `now`.
    pub fn verify_at(&self, token: &str, now: u64) -> (r: Result<Claims, TokenError>)
        ensures
            r == read_token(self.key(), token@, now),
    {
        if self.key.len() == 0 {
            return Err(TokenError::KeyUnavailable);
        }
        let bytes = match crate::hex::decode(token) {
            Some(bytes) => bytes,
            None => {
                return Err(TokenError::Malformed);
            },
        };
        if bytes.len() < CLAIMS_LEN {
            return Err(TokenError::Malformed);
        }
        let body = slice_subrange(bytes.as_slice(), 0, CLAIMS_LEN);
        let tag = slice_subrange(bytes.as_slice(), CLAIMS_LEN, bytes.len());
        let expected = hmac_sha256_tag(self.key.as_slice(), body);
        if !same_bytes(tag, expected.as_slice()) {
            return Err(TokenError::BadSignature);
        }
        let claims = match decode_claims(body) {
            Some(claims) => claims,
            None => {
                return Err(TokenError::Malformed);
            },
        };
        if claims.exp <= now {
            Err(TokenError::Expired)
        } else {
            Ok(claims)
        }
    }

    /// Reads a presented token now. The clock decides the time; everything
    /// else is as in `verify_at`.
    pub fn verify(&self, token: &str) -> (r: Result<Claims, TokenError>)
        ensures
            exists|now: u64| r == #[trigger] read_token(self.key(), token@, now),
    {
        let now = unix_now();
        self.verify_at(token, now)
    }
}

} // verus!
