//! What every request handler shares: the accounts and the token signer.

use vstd::prelude::*;
use crate::account::{Account, AccountModel, AccountView, AccountViewModel};
use crate::error::{DomainError, SigningError};
use crate::service::{issued, issued_by, outcome_view, signed_view, signs, AccountService};
use crate::token::{signed_token, signing_view, SessionToken, TokenSigner};

verus! {

/// The state of the process that the handlers work on. It is built once at
/// start-up; the login and self-fetch flows only read it.
pub struct ServerState {
    pub accounts: AccountService,
    pub signer: TokenSigner,
}

/// What a handler's signing function makes of the signer's answer: the
/// token, or `TokenIssuanceFailed` whatever the signer's reason was.
pub open spec fn bound(signed: Result<Seq<char>, SigningError>) -> Result<Seq<char>, DomainError> {
    match signed {
        Ok(t) => Ok(t),
        Err(_) => Err(DomainError::TokenIssuanceFailed),
    }
}

/// `sign_fn` answers as `signer` does for the same account at some time, with
/// the signer's own error replaced by `TokenIssuanceFailed`.
pub open spec fn signs_with<F: Fn(&Account) -> Result<SessionToken, DomainError>>(
    sign_fn: F,
    signer: TokenSigner,
) -> bool {
    forall|a: &Account, s: Result<SessionToken, DomainError>| #[trigger]
        call_ensures(sign_fn, (a,), s) ==> exists|now: u64|
            signed_view(s) == bound(#[trigger] signed_token(signer.key(), signer.ttl(), a@.id, now))
}

/// `outcome` is what the caller gets for the account `row` once `signer` has
/// signed at some time: the view with that token, or
/// `TokenIssuanceFailed`.
pub open spec fn issued_with(
    signer: TokenSigner,
    row: AccountModel,
    outcome: Result<AccountViewModel, DomainError>,
) -> bool {
    exists|now: u64|
        outcome == issued(
            row,
            bound(#[trigger] signed_token(signer.key(), signer.ttl(), row.id, now)),
        )
}

/// What was issued by a signing function that answers as `signer` does was
/// issued with `signer`.
pub proof fn lemma_issued_with<F: Fn(&Account) -> Result<SessionToken, DomainError>>(
    sign_fn: F,
    signer: TokenSigner,
    row: AccountModel,
    outcome: Result<AccountView, DomainError>,
)
    requires
        signs_with(sign_fn, signer),
        issued_by(sign_fn, row, outcome),
    ensures
        issued_with(signer, row, outcome_view(outcome)),
{
    let signed = choose|signed: Result<Seq<char>, DomainError>|
        #[trigger] signs(sign_fn, row, signed) && outcome_view(outcome) == issued(row, signed);
    let (a, s) = choose|a: Account, s: Result<SessionToken, DomainError>|
        a@ == row && #[trigger] call_ensures(sign_fn, (&a,), s) && signed_view(s) == signed;
    let now = choose|now: u64|
        signed_view(s) == bound(#[trigger] signed_token(signer.key(), signer.ttl(), a@.id, now));
    assert(signed == bound(signed_token(signer.key(), signer.ttl(), row.id, now)));
}

impl ServerState {
    /// The state's invariant: that of its accounts.
    pub open spec fn wf(&self) -> bool {
        self.accounts.wf()
    }

    /// The state of a process with these accounts and this signer.
    pub fn new(accounts: AccountService, signer: TokenSigner) -> (r: Self)
        requires
            accounts.wf(),
        ensures
            r.wf(),
            r.accounts == accounts,
            r.signer == signer,
    {
        ServerState { accounts, signer }
    }

    /// Signs for `account` as the account flows need it: the signer's own
    /// error is replaced by `TokenIssuanceFailed`.
    pub fn sign_for(signer: &TokenSigner, account: &Account) -> (r: Result<
        SessionToken,
        DomainError,
    >)
        ensures
            exists|now: u64|
                signed_view(r) == bound(
                    #[trigger] signed_token(signer.key(), signer.ttl(), account@.id, now),
                ),
    {
        Self::token_or_failure(signer.sign(account))
    }

    /// Replaces the signer's own error by `TokenIssuanceFailed`.
    pub fn token_or_failure(signed: Result<SessionToken, SigningError>) -> (r: Result<
        SessionToken,
        DomainError,
    >)
        ensures
            signed_view(r) == bound(signing_view(signed)),
    {
        match signed {
            Ok(token) => Ok(token),
            Err(_) => Err(DomainError::TokenIssuanceFailed),
        }
    }
}

} // verus!
