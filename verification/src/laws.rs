//! What holds across the operations of the account service.

use vstd::prelude::*;
use crate::account::{apply_patch, AccountModel, AccountUpdate, AccountViewModel, PatchModel};
use crate::error::{ConflictError, DomainError, StoreError, VerificationError};
use crate::password::password_check;
use crate::service::{
    login_refusal, patch_of, registered, registration_conflict, rehashed, resolve,
};
use crate::store::{
    email_held, insert_refusal, patch_refusal, patched_rows, row_by_email, row_by_id, table_wf,
    unique_rows,
};
use crate::rest::{answered, reply_of, reply_view, Reply, RestError};
use crate::service::issued;
use crate::state::{bound, issued_with};
use crate::token::{lemma_signed_then_read, signed_token, TokenSigner};

verus! {

/// In a table of unique rows, looking a row up by its id or by its email
/// finds that row.
pub proof fn lemma_row_is_found(rows: Seq<AccountModel>, k: int)
    requires
        unique_rows(rows),
        0 <= k < rows.len(),
    ensures
        row_by_id(rows, rows[k].id) == Some(rows[k]),
        row_by_email(rows, rows[k].email) == Some(rows[k]),
{
}

/// Adding the row of a registration that was not refused keeps the table
/// well formed, and the new row is found under its id and its email.
pub proof fn lemma_registration_keeps_table(
    rows: Seq<AccountModel>,
    next_id: u64,
    row: AccountModel,
)
    requires
        table_wf(rows, next_id),
        next_id < u64::MAX,
        row.id == next_id,
        registration_conflict(rows, row.email, row.username) is None,
    ensures
        table_wf(rows.push(row), (next_id + 1) as u64),
        row_by_id(rows.push(row), row.id) == Some(row),
        row_by_email(rows.push(row), row.email) == Some(row),
{
    let after = rows.push(row);
    assert forall|i: int, j: int|
        0 <= i < after.len() && 0 <= j < after.len() && i != j implies {
        &&& (#[trigger] after[i]).id != (#[trigger] after[j]).id
        &&& after[i].email != after[j].email
        &&& after[i].username != after[j].username
    } by {
        if i < rows.len() {
        }
        if j < rows.len() {
        }
    }
    lemma_row_is_found(after, rows.len() as int);
}

/// A token that was signed for an account of the table resolves to that
/// account at any time before the token expires.
pub proof fn lemma_issued_token_resolves(
    rows: Seq<AccountModel>,
    row: AccountModel,
    key: Seq<u8>,
    ttl: u64,
    issued: u64,
    now: u64,
)
    requires
        row_by_id(rows, row.id) == Some(row),
        signed_token(key, ttl, row.id, issued) is Ok,
        now < issued + ttl,
    ensures
        resolve(rows, key, signed_token(key, ttl, row.id, issued)->Ok_0, now) == Ok::<
            AccountModel,
            DomainError,
        >(row),
{
    lemma_signed_then_read(key, ttl, row.id, issued, now);
}

/// The token that a successful registration hands out resolves, after the
/// registration, to the account that it created.
pub proof fn lemma_registration_token_resolves(
    rows: Seq<AccountModel>,
    next_id: u64,
    email: Seq<char>,
    username: Seq<char>,
    password: Seq<char>,
    row: AccountModel,
    key: Seq<u8>,
    ttl: u64,
    issued: u64,
    now: u64,
)
    requires
        table_wf(rows, next_id),
        next_id < u64::MAX,
        registration_conflict(rows, email, username) is None,
        registered(next_id, email, username, password, row),
        signed_token(key, ttl, row.id, issued) is Ok,
        now < issued + ttl,
    ensures
        resolve(rows.push(row), key, signed_token(key, ttl, row.id, issued)->Ok_0, now) == Ok::<
            AccountModel,
            DomainError,
        >(row),
        row.id == next_id,
{
    lemma_registration_keeps_table(rows, next_id, row);
    lemma_issued_token_resolves(rows.push(row), row, key, ttl, issued, now);
}

/// An account that was just registered is not refused when it logs in
/// with the email and the password that it registered with.
pub proof fn lemma_registered_can_log_in(
    rows: Seq<AccountModel>,
    next_id: u64,
    email: Seq<char>,
    username: Seq<char>,
    password: Seq<char>,
    row: AccountModel,
)
    requires
        table_wf(rows, next_id),
        next_id < u64::MAX,
        registration_conflict(rows, email, username) is None,
        registered(next_id, email, username, password, row),
    ensures
        row_by_email(rows.push(row), email) == Some(row),
        login_refusal(row_by_email(rows.push(row), email), password) is None,
{
    lemma_registration_keeps_table(rows, next_id, row);
}

/// `token` resolves to `row` at every time before `issued + ttl`.
pub open spec fn resolves_while_fresh(
    rows: Seq<AccountModel>,
    key: Seq<u8>,
    token: Seq<char>,
    row: AccountModel,
    issued: u64,
    ttl: u64,
) -> bool {
    forall|now: u64|
        now < issued + ttl ==> #[trigger] resolve(rows, key, token, now) == Ok::<
            AccountModel,
            DomainError,
        >(row)
}

/// What an endpoint answers for an account of the table carries a token,
/// and from the moment it was signed until it expires that token resolves
/// to the account.
pub proof fn lemma_answer_carries_its_account(
    signer: TokenSigner,
    status: u16,
    with_cookie: bool,
    rows: Seq<AccountModel>,
    row: AccountModel,
    r: Result<Reply, RestError>,
)
    requires
        answered(signer, status, with_cookie, row, r),
        r is Ok,
        row_by_id(rows, row.id) == Some(row),
    ensures
        r->Ok_0@.user.token is Some,
        exists|issued: u64| #[trigger]
            resolves_while_fresh(
                rows,
                signer.key(),
                r->Ok_0@.user.token->0,
                row,
                issued,
                signer.ttl(),
            ),
{
    let outcome = choose|outcome: Result<AccountViewModel, DomainError>| #[trigger]
        issued_with(signer, row, outcome) && reply_view(r) == reply_of(
            status,
            with_cookie,
            outcome,
        );
    let at = choose|at: u64|
        outcome == issued(
            row,
            bound(#[trigger] signed_token(signer.key(), signer.ttl(), row.id, at)),
        );
    let token = r->Ok_0@.user.token->0;
    assert forall|now: u64| now < at + signer.ttl() implies #[trigger] resolve(
        rows,
        signer.key(),
        token,
        now,
    ) == Ok::<AccountModel, DomainError>(row) by {
        lemma_issued_token_resolves(rows, row, signer.key(), signer.ttl(), at, now);
    }
    assert(resolves_while_fresh(rows, signer.key(), token, row, at, signer.ttl()));
}

/// Of two registrations under one email, the one that reaches the table
/// second is refused with `EmailTaken`, whatever username it brings. If it
/// comes after the first has written its row, the check before hashing
/// refuses it. If both passed that check before either wrote, the table
/// itself refuses the second row, and the refusal is turned into the same
/// error. Either way the table has no two rows alike.
pub proof fn lemma_second_registration_refused(
    rows: Seq<AccountModel>,
    next_id: u64,
    first: AccountModel,
    second_username: Seq<char>,
)
    requires
        table_wf(rows, next_id),
        next_id < u64::MAX,
        first.id == next_id,
        registration_conflict(rows, first.email, first.username) is None,
    ensures
        registration_conflict(rows.push(first), first.email, second_username) == Some(
            DomainError::Conflict(ConflictError::EmailTaken),
        ),
        insert_refusal(rows.push(first), (next_id + 1) as u64, first.email, second_username)
            == Some(StoreError::DuplicateEmail),
        DomainError::of_store(StoreError::DuplicateEmail) == DomainError::Conflict(
            ConflictError::EmailTaken,
        ),
        unique_rows(rows.push(first)),
{
    lemma_registration_keeps_table(rows, next_id, first);
    let after = rows.push(first);
    assert(after[rows.len() as int] == first);
    assert(email_held(after, first.email, None));
}

/// An unknown email and a wrong password are refused alike.
pub proof fn lemma_login_refusals_coincide(
    row: AccountModel,
    wrong_password: Seq<char>,
    any_password: Seq<char>,
)
    requires
        password_check(wrong_password, row.password_hash) == Ok::<bool, VerificationError>(false),
    ensures
        login_refusal(Some(row), wrong_password) == login_refusal(None, any_password),
        login_refusal(None, any_password) == Some(DomainError::InvalidCredentials),
{
}

/// A patch leaves alone every field that it does not carry, and never the
/// id.
pub proof fn lemma_patch_keeps_absent_fields(row: AccountModel, patch: PatchModel)
    ensures
        apply_patch(row, patch).id == row.id,
        patch.email is None ==> apply_patch(row, patch).email == row.email,
        patch.username is None ==> apply_patch(row, patch).username == row.username,
        patch.password_hash is None ==> apply_patch(row, patch).password_hash
            == row.password_hash,
        patch.bio is None ==> apply_patch(row, patch).bio == row.bio,
        patch.image is None ==> apply_patch(row, patch).image == row.image,
{
}

/// The patch that carries a new bio and nothing else.
pub open spec fn bio_patch(bio: Seq<char>) -> PatchModel {
    PatchModel { email: None, username: None, password_hash: None, bio: Some(bio), image: None }
}

/// An update that carries only a bio is never refused for an existing
/// row. Afterwards a lookup by the id finds the row with the new bio and
/// with its email, username, image and password hash as they were, and
/// every other row is as it was.
pub proof fn lemma_bio_only_update(rows: Seq<AccountModel>, k: int, bio: Seq<char>)
    requires
        unique_rows(rows),
        0 <= k < rows.len(),
    ensures
        patch_refusal(rows, rows[k].id, bio_patch(bio)) is None,
        row_by_id(patched_rows(rows, rows[k].id, bio_patch(bio)), rows[k].id) == Some(
            AccountModel { bio: Some(bio), ..rows[k] },
        ),
        patched_rows(rows, rows[k].id, bio_patch(bio)) == rows.update(
            k,
            AccountModel { bio: Some(bio), ..rows[k] },
        ),
        unique_rows(patched_rows(rows, rows[k].id, bio_patch(bio))),
{
    let id = rows[k].id;
    let after = patched_rows(rows, id, bio_patch(bio));
    assert(after =~= rows.update(k, AccountModel { bio: Some(bio), ..rows[k] }));
    assert forall|i: int, j: int|
        0 <= i < after.len() && 0 <= j < after.len() && i != j implies {
        &&& (#[trigger] after[i]).id != (#[trigger] after[j]).id
        &&& after[i].email != after[j].email
        &&& after[i].username != after[j].username
    } by {
        assert(after[i].id == rows[i].id && after[i].email == rows[i].email && after[i].username
            == rows[i].username);
        assert(after[j].id == rows[j].id && after[j].email == rows[j].email && after[j].username
            == rows[j].username);
    }
    lemma_row_is_found(after, k);
}

/// An account update that carries only a bio asks for the bio patch and
/// for no new hash, so what `lemma_bio_only_update` says holds of it.
pub proof fn lemma_bio_only_account_update(
    rows: Seq<AccountModel>,
    k: int,
    update: AccountUpdate,
    new_hash: Option<Seq<char>>,
)
    requires
        unique_rows(rows),
        0 <= k < rows.len(),
        update.email is None,
        update.username is None,
        update.password is None,
        update.image is None,
        update.bio is Some,
        rehashed(update, new_hash),
    ensures
        new_hash is None,
        patch_of(update, new_hash) == bio_patch(update.bio->0@),
        patch_refusal(rows, rows[k].id, patch_of(update, new_hash)) is None,
        row_by_id(patched_rows(rows, rows[k].id, patch_of(update, new_hash)), rows[k].id) == Some(
            AccountModel { bio: Some(update.bio->0@), ..rows[k] },
        ),
{
    lemma_bio_only_update(rows, k, update.bio->0@);
}

} // verus!
