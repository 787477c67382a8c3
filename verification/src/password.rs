//! Hashing and checking of passwords.

use vstd::prelude::*;
use crate::error::{HashingError, VerificationError};

verus! {

/// Smallest work factor that the hashing primitive accepts.
pub const MIN_COST: u32 = 4;

/// Largest work factor that the hashing primitive accepts.
pub const MAX_COST: u32 = 31;

/// Number of characters of a well-formed stored hash.
pub const HASH_LEN: usize = 60;

/// The failure type of the bcrypt crate, carried through unread.
#[verifier::external_type_specification]
#[verifier::external_body]
pub struct ExBcryptError(bcrypt::BcryptError);

/// What `bcrypt::verify` answers for a plaintext and a stored hash:
/// `Some(matches)`, or `None` where it reports an error.
pub uninterp spec fn bcrypt_verdict(plaintext: Seq<char>, stored: Seq<char>) -> Option<bool>;

/// Calls `bcrypt::hash`, which draws a fresh salt on every call.
///
/// Trusted: a cost outside `MIN_COST..=MAX_COST` is refused, and a hash that
/// comes back is one that `bcrypt::verify` accepts for the same plaintext.
/// Nothing is claimed about when the call succeeds, since the salt comes
/// from the operating system.
#[verifier::external_body]
fn bcrypt_hash(plaintext: &str, cost: u32) -> (r: Result<String, bcrypt::BcryptError>)
    ensures
        r is Ok ==> MIN_COST <= cost <= MAX_COST,
        r matches Ok(h) ==> bcrypt_verdict(plaintext@, h@) == Some(true),
{
    bcrypt::hash(plaintext, cost)
}

/// Calls `bcrypt::verify`.
///
/// Trusted: the answer is a function of the two strings alone, named by
/// `bcrypt_verdict`, and a stored hash that is not `HASH_LEN` characters
/// long is reported as an error.
#[verifier::external_body]
fn bcrypt_verify(plaintext: &str, stored: &str) -> (r: Result<bool, bcrypt::BcryptError>)
    ensures
        r matches Ok(b) ==> bcrypt_verdict(plaintext@, stored@) == Some(b),
        r is Err ==> bcrypt_verdict(plaintext@, stored@) is None,
        stored@.len() != HASH_LEN ==> r is Err,
{
    bcrypt::verify(plaintext, stored)
}

/// A password hash as it is stored with an account.
pub struct HashedPassword {
    text: String,
}

impl View for HashedPassword {
    type V = Seq<char>;

    closed spec fn view(&self) -> Seq<char> {
        self.text@
    }
}

impl HashedPassword {
    /// Takes a hash as it was read back from storage.
    pub fn from_stored(text: String) -> (r: Self)
        ensures
            r@ == text@,
    {
        HashedPassword { text }
    }

    /// The text to hand to storage.
    pub fn as_str(&self) -> (r: &str)
        ensures
            r@ == self@,
    {
        self.text.as_str()
    }
}

impl Clone for HashedPassword {
    fn clone(&self) -> (r: Self)
        ensures
            r@ == self@,
    {
        HashedPassword { text: self.text.clone() }
    }
}

/// The outcome of checking `plaintext` against `stored`: whether they match,
/// or that `stored` is corrupt.
pub open spec fn password_check(plaintext: Seq<char>, stored: Seq<char>) -> Result<
    bool,
    VerificationError,
> {
    match bcrypt_verdict(plaintext, stored) {
        Some(matches) => Ok(matches),
        None => Err(VerificationError),
    }
}

/// Hashes and checks passwords at a fixed work factor.
pub struct PasswordCredential {
    cost: u32,
}

impl PasswordCredential {
    /// The work factor used for new hashes.
    pub closed spec fn cost(&self) -> u32 {
        self.cost
    }

    /// The work factor is one that the primitive accepts.
    pub open spec fn wf(&self) -> bool {
        MIN_COST <= self.cost() <= MAX_COST
    }

    /// A credential checker with the given work factor, if it is in range.
    pub fn new(cost: u32) -> (r: Option<Self>)
        ensures
            r is Some <==> MIN_COST <= cost <= MAX_COST,
            r matches Some(c) ==> c.cost() == cost && c.wf(),
    {
        if MIN_COST <= cost && cost <= MAX_COST {
            Some(PasswordCredential { cost })
        } else {
            None
        }
    }

    /// Hashes `plaintext` with a fresh salt.
    ///
    /// Whether the primitive succeeds is its own decision; a hash that is
    /// returned is one that `verify` accepts for the same plaintext.
    pub fn hash(&self, plaintext: &str) -> (r: Result<HashedPassword, HashingError>)
        ensures
            r matches Ok(h) ==> password_check(plaintext@, h@) == Ok::<bool, VerificationError>(
                true,
            ),
            r is Ok ==> self.wf(),
    {
        Self::hashed(bcrypt_hash(plaintext, self.cost))
    }

    /// Turns the primitive's answer into a stored hash or a hashing error.
    pub fn hashed(outcome: Result<String, bcrypt::BcryptError>) -> (r: Result<
        HashedPassword,
        HashingError,
    >)
        ensures
            match outcome {
                Ok(text) => r matches Ok(h) && h@ == text@,
                Err(_) => r == Err::<HashedPassword, HashingError>(HashingError),
            },
    {
        match outcome {
            Ok(text) => Ok(HashedPassword { text }),
            Err(_) => Err(HashingError),
        }
    }

    /// Checks `plaintext` against `stored`. A mismatch is `Ok(false)`; only
    /// a corrupt stored hash is an error.
    pub fn verify(plaintext: &str, stored: &HashedPassword) -> (r: Result<bool, VerificationError>)
        ensures
            r == password_check(plaintext@, stored@),
            stored@.len() != HASH_LEN ==> r == Err::<bool, VerificationError>(VerificationError),
    {
        match bcrypt_verify(plaintext, stored.text.as_str()) {
            Ok(matches) => Ok(matches),
            Err(_) => Err(VerificationError),
        }
    }
}

} // verus!
