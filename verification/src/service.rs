//! Registration, login and profile update.

use vstd::prelude::*;
use crate::account::{
    apply_patch, copy_text, created_row, text_of, view_of, Account, AccountModel, AccountPatch,
    AccountUpdate, AccountView, AccountViewModel, Credentials, NewAccount, PatchModel,
    Registration,
};
use crate::error::{ConflictError, DomainError, HashingError, TokenError, VerificationError};
use crate::password::{password_check, HashedPassword, PasswordCredential};
use crate::store::{
    account_of, email_held, insert_refusal, patch_refusal, patched_rows, row_by_email, row_by_id,
    username_held, AccountStore,
};
use crate::token::{read_token, Claims, SessionToken, TokenSigner};

verus! {

/// The mathematical content of what a signing function answered.
pub open spec fn signed_view(signed: Result<SessionToken, DomainError>) -> Result<
    Seq<char>,
    DomainError,
> {
    match signed {
        Ok(t) => Ok(t@),
        Err(e) => Err(e),
    }
}

/// The mathematical content of what an operation hands to its caller.
pub open spec fn outcome_view(r: Result<AccountView, DomainError>) -> Result<
    AccountViewModel,
    DomainError,
> {
    match r {
        Ok(v) => Ok(v@),
        Err(e) => Err(e),
    }
}

/// What the caller gets once the account operation went through and the
/// signing function answered `signed`: the account's view with the token,
/// or `TokenIssuanceFailed` whatever the signer's own error was.
pub open spec fn issued(account: AccountModel, signed: Result<Seq<char>, DomainError>) -> Result<
    AccountViewModel,
    DomainError,
> {
    match signed {
        Ok(t) => Ok(view_of(account, Some(t))),
        Err(_) => Err(DomainError::TokenIssuanceFailed),
    }
}

/// `sign_fn` may answer `signed` when asked to sign for the account `row`.
pub open spec fn signs<F: Fn(&Account) -> Result<SessionToken, DomainError>>(
    sign_fn: F,
    row: AccountModel,
    signed: Result<Seq<char>, DomainError>,
) -> bool {
    exists|a: Account, s: Result<SessionToken, DomainError>|
        a@ == row && #[trigger] call_ensures(sign_fn, (&a,), s) && signed_view(s) == signed
}

/// The result is what `issued` makes of some answer that `sign_fn` may give
/// for `row`.
pub open spec fn issued_by<F: Fn(&Account) -> Result<SessionToken, DomainError>>(
    sign_fn: F,
    row: AccountModel,
    r: Result<AccountView, DomainError>,
) -> bool {
    exists|signed: Result<Seq<char>, DomainError>|
        #[trigger] signs(sign_fn, row, signed) && outcome_view(r) == issued(row, signed)
}

/// What login decides once the lookup and the password check are in: an
/// unknown email and a wrong password are the same refusal, a corrupt
/// stored hash is a fault of its own, and only a match goes on to signing.
pub open spec fn login_refusal(
    found: Option<AccountModel>,
    password: Seq<char>,
) -> Option<DomainError> {
    match found {
        None => Some(DomainError::InvalidCredentials),
        Some(row) => match password_check(password, row.password_hash) {
            Err(_) => Some(DomainError::VerificationError),
            Ok(false) => Some(DomainError::InvalidCredentials),
            Ok(true) => None,
        },
    }
}

/// Why a registration is refused before anything is hashed or written: the
/// email is taken, or else the username is.
pub open spec fn registration_conflict(
    rows: Seq<AccountModel>,
    email: Seq<char>,
    username: Seq<char>,
) -> Option<DomainError> {
    if email_held(rows, email, None) {
        Some(DomainError::Conflict(ConflictError::EmailTaken))
    } else if username_held(rows, username, None) {
        Some(DomainError::Conflict(ConflictError::UsernameTaken))
    } else {
        None
    }
}

/// `row` is what a registration of these inputs creates under `id`: the
/// email and username as given, neither bio nor image, and a hash that the
/// given password checks against.
pub open spec fn registered(
    id: u64,
    email: Seq<char>,
    username: Seq<char>,
    password: Seq<char>,
    row: AccountModel,
) -> bool {
    &&& row == created_row(id, email, username, row.password_hash)
    &&& password_check(password, row.password_hash) == Ok::<bool, VerificationError>(true)
}

/// The mathematical content of an optional hash.
pub open spec fn hash_of(h: Option<HashedPassword>) -> Option<Seq<char>> {
    match h {
        Some(h) => Some(h@),
        None => None,
    }
}

/// The change to a row that `update` asks for, with `new_hash` in the place
/// of its plaintext password.
pub open spec fn patch_of(update: AccountUpdate, new_hash: Option<Seq<char>>) -> PatchModel {
    PatchModel {
        email: text_of(update.email),
        username: text_of(update.username),
        password_hash: new_hash,
        bio: text_of(update.bio),
        image: text_of(update.image),
    }
}

/// `new_hash` is a fit replacement for the password of `update`: absent if
/// the update carries no password, and otherwise a hash that the new
/// password checks against.
pub open spec fn rehashed(update: AccountUpdate, new_hash: Option<Seq<char>>) -> bool {
    match update.password {
        None => new_hash is None,
        Some(p) => new_hash matches Some(h) && password_check(p@, h) == Ok::<
            bool,
            VerificationError,
        >(true),
    }
}

/// Whose token `text` is at time `now`: the account that its claims name,
/// `InvalidCredentials` if the token is refused for any reason, `NotFound`
/// if no row has the id it names.
pub open spec fn resolve(
    rows: Seq<AccountModel>,
    key: Seq<u8>,
    text: Seq<char>,
    now: u64,
) -> Result<AccountModel, DomainError> {
    match read_token(key, text, now) {
        Err(_) => Err(DomainError::InvalidCredentials),
        Ok(claims) => match row_by_id(rows, claims.sub) {
            Some(row) => Ok(row),
            None => Err(DomainError::NotFound),
        },
    }
}

/// The mathematical content of an account or an error.
pub open spec fn account_outcome(r: Result<Account, DomainError>) -> Result<
    AccountModel,
    DomainError,
> {
    match r {
        Ok(a) => Ok(a@),
        Err(e) => Err(e),
    }
}

/// The account operations over a table of accounts.
pub struct AccountService {
    store: AccountStore,
    hasher: PasswordCredential,
    /// A hash that belongs to no account. A login under an unknown email
    /// is checked against it, so that it costs what a wrong password costs.
    decoy: Option<HashedPassword>,
}

impl View for AccountService {
    type V = Seq<AccountModel>;

    open spec fn view(&self) -> Seq<AccountModel> {
        self.table()@
    }
}

impl AccountService {
    /// The table behind the service.
    pub closed spec fn table(&self) -> AccountStore {
        self.store
    }

    /// The service's invariant: that of its table.
    pub open spec fn wf(&self) -> bool {
        self.table().wf()
    }

    /// The id that the next registration gets.
    pub open spec fn next_id(&self) -> u64 {
        self.table().next_id()
    }

    /// `other` holds the same rows and hands out the same next id.
    pub open spec fn untouched(&self, other: &AccountService) -> bool {
        &&& self@ == other@
        &&& self.next_id() == other.next_id()
    }

    /// A service over `store` that hashes new passwords with `hasher`.
    pub fn new(store: AccountStore, hasher: PasswordCredential) -> (r: Self)
        requires
            store.wf(),
        ensures
            r.wf(),
            r.table() == store,
    {
        let decoy = match hasher.hash("") {
            Ok(h) => Some(h),
            Err(_) => None,
        };
        AccountService { store, hasher, decoy }
    }

    /// The table, to read.
    pub fn store(&self) -> (r: &AccountStore)
        ensures
            *r == self.table(),
    {
        &self.store
    }

    /// Turns the signing function's answer into what the caller gets.
    pub fn issue(account: &Account, signed: Result<SessionToken, DomainError>) -> (r: Result<
        AccountView,
        DomainError,
    >)
        ensures
            outcome_view(r) == issued(account@, signed_view(signed)),
    {
        match signed {
            Ok(token) => Ok(AccountView::with_token(account, token)),
            Err(_) => Err(DomainError::TokenIssuanceFailed),
        }
    }

    /// Decides what the password check means for a login.
    pub fn judge(checked: Result<bool, VerificationError>) -> (r: Result<(), DomainError>)
        ensures
            r == match checked {
                Ok(true) => Ok::<(), DomainError>(()),
                Ok(false) => Err(DomainError::InvalidCredentials),
                Err(_) => Err(DomainError::VerificationError),
            },
    {
        match checked {
            Ok(true) => Ok(()),
            Ok(false) => Err(DomainError::InvalidCredentials),
            Err(_) => Err(DomainError::VerificationError),
        }
    }

    /// Logs in against the result of an email lookup: checks the password
    /// and, if it matches, has a token signed.
    pub fn login_found<F: Fn(&Account) -> Result<SessionToken, DomainError>>(
        found: Option<&Account>,
        password: &str,
        sign_fn: F,
    ) -> (r: Result<AccountView, DomainError>)
        requires
            forall|a: &Account| call_requires(sign_fn, (a,)),
        ensures
            match login_refusal(account_of(found), password@) {
                Some(e) => r == Err::<AccountView, DomainError>(e),
                None => issued_by(sign_fn, found->0@, r),
            },
    {
        let account = match found {
            Some(account) => account,
            None => {
                return Err(DomainError::InvalidCredentials);
            },
        };
        let checked = PasswordCredential::verify(password, account.password_hash());
        match Self::judge(checked) {
            Ok(()) => {},
            Err(e) => {
                return Err(e);
            },
        }
        let signed = sign_fn(account);
        let r = Self::issue(account, signed);
        proof {
            assert(signs(sign_fn, account@, signed_view(signed)));
        }
        r
    }

    /// Logs in: looks the email up, checks the password and has a token
    /// signed. An unknown email is answered exactly as a wrong password is,
    /// and only after a password check of the same cost.
    pub fn login<F: Fn(&Account) -> Result<SessionToken, DomainError>>(
        &self,
        credentials: &Credentials,
        sign_fn: F,
    ) -> (r: Result<AccountView, DomainError>)
        requires
            self.wf(),
            forall|a: &Account| call_requires(sign_fn, (a,)),
        ensures
            match login_refusal(row_by_email(self@, credentials.email@), credentials.password@) {
                Some(e) => r == Err::<AccountView, DomainError>(e),
                None => issued_by(sign_fn, row_by_email(self@, credentials.email@)->0, r),
            },
    {
        let found = self.store.find_by_email(credentials.email.as_str());
        if found.is_none() {
            self.check_decoy(credentials.password.as_str());
        }
        Self::login_found(found, credentials.password.as_str(), sign_fn)
    }

    /// Runs the password check against the decoy and drops the answer.
    fn check_decoy(&self, password: &str) {
        match &self.decoy {
            Some(hash) => {
                let _ = PasswordCredential::verify(password, hash);
            },
            None => {},
        }
    }

    /// The row to write for a registration once its password went through
    /// hashing; a failed hash is `RegistrationFailed`.
    pub fn new_account(input: &Registration, hashed: Result<HashedPassword, HashingError>) -> (r:
        Result<NewAccount, DomainError>)
        ensures
            match hashed {
                Err(_) => r == Err::<NewAccount, DomainError>(DomainError::RegistrationFailed),
                Ok(h) => {
                    &&& r matches Ok(new)
                    &&& new.email@ == input.email@
                    &&& new.username@ == input.username@
                    &&& new.password_hash@ == h@
                },
            },
    {
        match hashed {
            Ok(password_hash) => Ok(
                NewAccount {
                    email: input.email.clone(),
                    username: input.username.clone(),
                    password_hash,
                },
            ),
            Err(_) => Err(DomainError::RegistrationFailed),
        }
    }

    /// Decides a registration up to the point where a row can be written,
    /// given whether its email and its username were found taken. A taken
    /// email, or else a taken username, is refused before anything is
    /// hashed. Otherwise the password is hashed, and the hashing primitive
    /// decides between `RegistrationFailed` and the row to write.
    pub fn prepare(
        hasher: &PasswordCredential,
        input: &Registration,
        email_taken: bool,
        username_taken: bool,
    ) -> (r: Result<NewAccount, DomainError>)
        ensures
            if email_taken {
                r == Err::<NewAccount, DomainError>(
                    DomainError::Conflict(ConflictError::EmailTaken),
                )
            } else if username_taken {
                r == Err::<NewAccount, DomainError>(
                    DomainError::Conflict(ConflictError::UsernameTaken),
                )
            } else {
                ||| r == Err::<NewAccount, DomainError>(DomainError::RegistrationFailed)
                ||| {
                    &&& r matches Ok(new)
                    &&& new.email@ == input.email@
                    &&& new.username@ == input.username@
                    &&& password_check(input.password@, new.password_hash@) == Ok::<
                        bool,
                        VerificationError,
                    >(true)
                }
            },
    {
        if email_taken {
            return Err(DomainError::Conflict(ConflictError::EmailTaken));
        }
        if username_taken {
            return Err(DomainError::Conflict(ConflictError::UsernameTaken));
        }
        Self::new_account(input, hasher.hash(input.password.as_str()))
    }

    /// Writes the row of a new account. A refusal of the table is
    /// turned into its domain kind, and nothing is written then.
    pub fn persist(&mut self, new: NewAccount) -> (r: Result<Account, DomainError>)
        requires
            old(self).wf(),
        ensures
            final(self).wf(),
            match insert_refusal(old(self)@, old(self).next_id(), new.email@, new.username@) {
                Some(e) => {
                    &&& r == Err::<Account, DomainError>(DomainError::of_store(e))
                    &&& final(self).untouched(old(self))
                },
                None => {
                    &&& r matches Ok(a)
                    &&& a@ == created_row(
                        old(self).next_id(),
                        new.email@,
                        new.username@,
                        new.password_hash@,
                    )
                    &&& final(self)@ == old(self)@.push(a@)
                    &&& final(self).next_id() == old(self).next_id() + 1
                },
            },
    {
        match self.store.insert(new) {
            Ok(account) => Ok(account),
            Err(e) => Err(DomainError::from_store(e)),
        }
    }

    /// Registers an account and has a token signed for it.
    ///
    /// A taken email or username is refused before anything is hashed or
    /// written. Otherwise the outcome rests on the hashing primitive and
    /// on `sign_fn`: either nothing was written and the error says why, or
    /// exactly one row was added and the result is what `issued` makes of
    /// the signer's answer. A row that was written stays even if signing
    /// then fails.
    pub fn register<F: Fn(&Account) -> Result<SessionToken, DomainError>>(
        &mut self,
        input: &Registration,
        sign_fn: F,
    ) -> (r: Result<AccountView, DomainError>)
        requires
            old(self).wf(),
            forall|a: &Account| call_requires(sign_fn, (a,)),
        ensures
            final(self).wf(),
            match registration_conflict(old(self)@, input.email@, input.username@) {
                Some(e) => {
                    &&& r == Err::<AccountView, DomainError>(e)
                    &&& final(self).untouched(old(self))
                },
                None => {
                    ||| {
                        &&& r == Err::<AccountView, DomainError>(DomainError::RegistrationFailed)
                        &&& final(self).untouched(old(self))
                    }
                    ||| {
                        &&& old(self).next_id() == u64::MAX
                        &&& r == Err::<AccountView, DomainError>(DomainError::StoreError)
                        &&& final(self).untouched(old(self))
                    }
                    ||| exists|row: AccountModel|
                        {
                            &&& #[trigger] registered(
                                old(self).next_id(),
                                input.email@,
                                input.username@,
                                input.password@,
                                row,
                            )
                            &&& final(self)@ == old(self)@.push(row)
                            &&& final(self).next_id() == old(self).next_id() + 1
                            &&& issued_by(sign_fn, row, r)
                        }
                },
            },
    {
        let email_taken = self.store.email_taken(input.email.as_str());
        let username_taken = self.store.username_taken(input.username.as_str());
        let new = match Self::prepare(&self.hasher, input, email_taken, username_taken) {
            Ok(new) => new,
            Err(e) => {
                return Err(e);
            },
        };
        let account = match self.persist(new) {
            Ok(account) => account,
            Err(e) => {
                return Err(e);
            },
        };
        let signed = sign_fn(&account);
        let r = Self::issue(&account, signed);
        proof {
            assert(signs(sign_fn, account@, signed_view(signed)));
            assert(registered(
                old(self).next_id(),
                input.email@,
                input.username@,
                input.password@,
                account@,
            ));
        }
        r
    }

    /// The change to a row that `update` asks for, with `new_hash` in the
    /// place of its plaintext password.
    pub fn patch_with(update: &AccountUpdate, new_hash: Option<HashedPassword>) -> (r:
        AccountPatch)
        ensures
            r@ == patch_of(*update, hash_of(new_hash)),
    {
        AccountPatch {
            email: copy_text(&update.email),
            username: copy_text(&update.username),
            password_hash: new_hash,
            bio: copy_text(&update.bio),
            image: copy_text(&update.image),
        }
    }

    /// What hashing a new password, if there was one, means for an update:
    /// the hash to store, nothing to store, or `HashingError`.
    pub fn replacement(hashed: Option<Result<HashedPassword, HashingError>>) -> (r: Result<
        Option<HashedPassword>,
        DomainError,
    >)
        ensures
            match hashed {
                None => r matches Ok(None),
                Some(Ok(h)) => r matches Ok(Some(kept)) && kept@ == h@,
                Some(Err(_)) => r == Err::<Option<HashedPassword>, DomainError>(
                    DomainError::HashingError,
                ),
            },
    {
        match hashed {
            None => Ok(None),
            Some(Ok(h)) => Ok(Some(h)),
            Some(Err(_)) => Err(DomainError::HashingError),
        }
    }

    /// Decides an update up to the point where the row can be written: a
    /// new password is hashed, and the hashing primitive decides between
    /// `HashingError` and the change to write. Without a new password the
    /// change is what the update carries.
    pub fn prepare_update(hasher: &PasswordCredential, update: &AccountUpdate) -> (r: Result<
        AccountPatch,
        DomainError,
    >)
        ensures
            ({
                ||| {
                    &&& update.password is Some
                    &&& r == Err::<AccountPatch, DomainError>(DomainError::HashingError)
                }
                ||| {
                    &&& r matches Ok(patch)
                    &&& rehashed(*update, patch@.password_hash)
                    &&& patch@ == patch_of(*update, patch@.password_hash)
                }
            }),
    {
        let hashed = match &update.password {
            Some(password) => Some(hasher.hash(password.as_str())),
            None => None,
        };
        match Self::replacement(hashed) {
            Ok(new_hash) => Ok(Self::patch_with(update, new_hash)),
            Err(e) => Err(e),
        }
    }

    /// Applies `patch` to the row `id`. A refusal of the table is
    /// turned into its domain kind, and nothing is written then.
    pub fn apply(&mut self, id: u64, patch: AccountPatch) -> (r: Result<Account, DomainError>)
        requires
            old(self).wf(),
        ensures
            final(self).wf(),
            final(self).next_id() == old(self).next_id(),
            match patch_refusal(old(self)@, id, patch@) {
                Some(e) => {
                    &&& r == Err::<Account, DomainError>(DomainError::of_store(e))
                    &&& final(self)@ == old(self)@
                },
                None => {
                    &&& r matches Ok(a)
                    &&& row_by_id(old(self)@, id) matches Some(before)
                    &&& a@ == apply_patch(before, patch@)
                    &&& final(self)@ == patched_rows(old(self)@, id, patch@)
                },
            },
    {
        match self.store.update(id, patch) {
            Ok(account) => Ok(account),
            Err(e) => Err(DomainError::from_store(e)),
        }
    }

    /// Updates the caller's own account and has a fresh token signed.
    ///
    /// Only the fields that `update` carries change. A new password is
    /// hashed before it is stored; if that fails nothing is written. A new
    /// email or username that belongs to another account is a conflict.
    pub fn update_account<F: Fn(&Account) -> Result<SessionToken, DomainError>>(
        &mut self,
        update: &AccountUpdate,
        current: &Account,
        sign_fn: F,
    ) -> (r: Result<AccountView, DomainError>)
        requires
            old(self).wf(),
            forall|a: &Account| call_requires(sign_fn, (a,)),
        ensures
            final(self).wf(),
            final(self).next_id() == old(self).next_id(),
            ({
                ||| {
                    &&& update.password is Some
                    &&& r == Err::<AccountView, DomainError>(DomainError::HashingError)
                    &&& final(self)@ == old(self)@
                }
                ||| exists|new_hash: Option<Seq<char>>|
                    {
                        &&& #[trigger] rehashed(*update, new_hash)
                        &&& match patch_refusal(
                            old(self)@,
                            current@.id,
                            patch_of(*update, new_hash),
                        ) {
                            Some(e) => {
                                &&& r == Err::<AccountView, DomainError>(DomainError::of_store(e))
                                &&& final(self)@ == old(self)@
                            },
                            None => {
                                &&& row_by_id(old(self)@, current@.id) matches Some(before)
                                &&& final(self)@ == patched_rows(
                                    old(self)@,
                                    current@.id,
                                    patch_of(*update, new_hash),
                                )
                                &&& issued_by(
                                    sign_fn,
                                    apply_patch(before, patch_of(*update, new_hash)),
                                    r,
                                )
                            },
                        }
                    }
            }),
    {
        let patch = match Self::prepare_update(&self.hasher, update) {
            Ok(patch) => patch,
            Err(e) => {
                return Err(e);
            },
        };
        let ghost new_hash = patch@.password_hash;
        let account = match self.apply(current.id(), patch) {
            Ok(account) => account,
            Err(e) => {
                return Err(e);
            },
        };
        let signed = sign_fn(&account);
        let r = Self::issue(&account, signed);
        proof {
            assert(signs(sign_fn, account@, signed_view(signed)));
        }
        r
    }

    /// Decides whose token was read: the account that the claims name, or
    /// the refusal that stands for any token error.
    pub fn resolve_claims(&self, read: Result<Claims, TokenError>) -> (r: Result<
        Account,
        DomainError,
    >)
        requires
            self.wf(),
        ensures
            account_outcome(r) == match read {
                Err(_) => Err::<AccountModel, DomainError>(DomainError::InvalidCredentials),
                Ok(claims) => match row_by_id(self@, claims.sub) {
                    Some(row) => Ok(row),
                    None => Err(DomainError::NotFound),
                },
            },
    {
        let claims = match read {
            Ok(claims) => claims,
            Err(_) => {
                return Err(DomainError::InvalidCredentials);
            },
        };
        match self.store.find_by_id(claims.sub) {
            Some(account) => Ok(account.clone()),
            None => Err(DomainError::NotFound),
        }
    }

    /// Reads a presented token at time `now` and looks up the account it
    /// was signed for.
    pub fn authenticate_at(&self, signer: &TokenSigner, token: &str, now: u64) -> (r: Result<
        Account,
        DomainError,
    >)
        requires
            self.wf(),
        ensures
            account_outcome(r) == resolve(self@, signer.key(), token@, now),
    {
        self.resolve_claims(signer.verify_at(token, now))
    }

    /// Reads a presented token now and looks up the account it was signed
    /// for. The clock decides the time; everything else is as in
    /// `authenticate_at`.
    pub fn authenticate(&self, signer: &TokenSigner, token: &str) -> (r: Result<
        Account,
        DomainError,
    >)
        requires
            self.wf(),
        ensures
            exists|now: u64|
                account_outcome(r) == #[trigger] resolve(self@, signer.key(), token@, now),
    {
        let read = signer.verify(token);
        let ghost now = choose|now: u64| read == #[trigger] read_token(signer.key(), token@, now);
        let r = self.resolve_claims(read);
        assert(account_outcome(r) == resolve(self@, signer.key(), token@, now));
        r
    }
}

} // verus!
