//! The plain login endpoint: what it answers once the account was looked
//! up.

use vstd::prelude::*;
use crate::account::{Account, AccountView, AccountViewModel, Credentials};
use crate::error::DomainError;
use crate::rest::{STATUS_INTERNAL_SERVER_ERROR, STATUS_OK, STATUS_UNAUTHORIZED};
use crate::service::{login_refusal, outcome_view, signed_view, AccountService};
use crate::state::{bound, issued_with, lemma_issued_with, ServerState};
use crate::store::account_of;
use crate::token::{signed_token, SessionToken, TokenSigner};

verus! {

/// The body of a successful login.
pub struct LoginResponse {
    pub user: AccountView,
}

/// What the endpoint sends back.
pub struct Response {
    pub status: u16,
    pub body: Option<LoginResponse>,
}

/// A response as a mathematical value.
pub struct ResponseModel {
    pub status: u16,
    pub user: Option<AccountViewModel>,
}

impl View for Response {
    type V = ResponseModel;

    open spec fn view(&self) -> ResponseModel {
        ResponseModel {
            status: self.status,
            user: match self.body {
                Some(body) => Some(body.user@),
                None => None,
            },
        }
    }
}

/// The response for a login's outcome: the view under `STATUS_OK`, an
/// empty `STATUS_UNAUTHORIZED` for refused credentials, and an empty
/// internal error for anything else.
pub open spec fn response_of(outcome: Result<AccountViewModel, DomainError>) -> ResponseModel {
    match outcome {
        Ok(user) => ResponseModel { status: STATUS_OK, user: Some(user) },
        Err(DomainError::InvalidCredentials) => ResponseModel {
            status: STATUS_UNAUTHORIZED,
            user: None,
        },
        Err(_) => ResponseModel { status: STATUS_INTERNAL_SERVER_ERROR, user: None },
    }
}

/// Makes the response of a login's outcome.
pub fn respond(outcome: Result<AccountView, DomainError>) -> (r: Response)
    ensures
        r@ == response_of(outcome_view(outcome)),
{
    match outcome {
        Ok(user) => Response { status: STATUS_OK, body: Some(LoginResponse { user }) },
        Err(DomainError::InvalidCredentials) => Response {
            status: STATUS_UNAUTHORIZED,
            body: None,
        },
        Err(_) => Response { status: STATUS_INTERNAL_SERVER_ERROR, body: None },
    }
}

/// Answers a login request, given what the lookup of its email found.
///
/// Refused credentials, whether the email is unknown or the password
/// wrong, are `STATUS_UNAUTHORIZED`. A corrupt stored hash or a signer
/// without a usable key is an internal error. Otherwise the body carries
/// the account's view with a token that `signer` signed.
pub fn login(found: Option<&Account>, payload: &Credentials, signer: &TokenSigner) -> (r: Response)
    ensures
        match login_refusal(account_of(found), payload.password@) {
            Some(e) => r@ == response_of(Err(e)),
            None => exists|outcome: Result<AccountViewModel, DomainError>| #[trigger]
                issued_with(*signer, found->0@, outcome) && r@ == response_of(outcome),
        },
{
    let sign_fn = |user: &Account| -> (signed: Result<SessionToken, DomainError>)
        ensures
            exists|now: u64|
                signed_view(signed) == bound(
                    #[trigger] signed_token(signer.key(), signer.ttl(), user@.id, now),
                ),
        { ServerState::sign_for(signer, user) };
    let outcome = AccountService::login_found(found, payload.password.as_str(), sign_fn);
    proof {
        if login_refusal(account_of(found), payload.password@) is None {
            lemma_issued_with(sign_fn, *signer, found->0@, outcome);
        }
    }
    respond(outcome)
}

} // verus!
