//! Error kinds of the account subsystem.

use vstd::prelude::*;

verus! {

/// The password primitive refused to produce a hash.
#[derive(Clone, Copy, Debug, PartialEq, Eq, Structural)]
pub struct HashingError;

/// A stored hash could not be read: the data is corrupt. A wrong password
/// is never reported this way.
#[derive(Clone, Copy, Debug, PartialEq, Eq, Structural)]
pub struct VerificationError;

/// Why a session token could not be issued.
#[derive(Clone, Copy, Debug, PartialEq, Eq, Structural)]
pub enum SigningError {
    /// No signing key is loaded.
    KeyUnavailable,
    /// The claims do not fit the token format: the expiry is out of range.
    ClaimsNotEncodable,
}

/// Why a presented session token was refused.
#[derive(Clone, Copy, Debug, PartialEq, Eq, Structural)]
pub enum TokenError {
    /// No verification key is loaded.
    KeyUnavailable,
    /// The text is not a token of this format.
    Malformed,
    /// The signature does not belong to the claims under this key.
    BadSignature,
    /// The token is past its expiry.
    Expired,
}

/// What the table of accounts reports when it refuses an operation.
#[derive(Clone, Copy, Debug, PartialEq, Eq, Structural)]
pub enum StoreError {
    /// Another row already holds the email.
    DuplicateEmail,
    /// Another row already holds the username.
    DuplicateUsername,
    /// No row has the given id.
    MissingRow,
    /// The table cannot take another row.
    Unavailable,
}

/// Which unique field a registration or update collided on.
#[derive(Clone, Copy, Debug, PartialEq, Eq, Structural)]
pub enum ConflictError {
    EmailTaken,
    UsernameTaken,
}

/// The error kinds that cross from the account service to its callers.
#[derive(Clone, Copy, Debug, PartialEq, Eq, Structural)]
pub enum DomainError {
    /// Unknown email or wrong password; the two are not told apart.
    InvalidCredentials,
    /// A unique field is already held by another account.
    Conflict(ConflictError),
    /// The password of a new account could not be hashed.
    RegistrationFailed,
    /// A replacement password could not be hashed.
    HashingError,
    /// A stored password hash is corrupt.
    VerificationError,
    /// The table of accounts failed for a reason other than a conflict.
    StoreError,
    /// The account operation went through but no token could be signed.
    TokenIssuanceFailed,
    /// No account has the requested id.
    NotFound,
}

impl DomainError {
    /// The domain kind of a store refusal: a uniqueness violation becomes
    /// the matching conflict, a missing row becomes `NotFound`, and
    /// anything else stays a store error.
    pub open spec fn of_store(e: StoreError) -> DomainError {
        match e {
            StoreError::DuplicateEmail => DomainError::Conflict(ConflictError::EmailTaken),
            StoreError::DuplicateUsername => DomainError::Conflict(ConflictError::UsernameTaken),
            StoreError::MissingRow => DomainError::NotFound,
            StoreError::Unavailable => DomainError::StoreError,
        }
    }

    /// Turns a store refusal into its domain kind.
    pub fn from_store(e: StoreError) -> (r: DomainError)
        ensures
            r == DomainError::of_store(e),
    {
        match e {
            StoreError::DuplicateEmail => DomainError::Conflict(ConflictError::EmailTaken),
            StoreError::DuplicateUsername => DomainError::Conflict(ConflictError::UsernameTaken),
            StoreError::MissingRow => DomainError::NotFound,
            StoreError::Unavailable => DomainError::StoreError,
        }
    }
}

} // verus!
