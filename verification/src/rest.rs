//! The REST adapter: which endpoint a request reaches, and what each
//! endpoint answers.

use vstd::prelude::*;
use vstd::string::StringExecFns;
use crate::account::{
    apply_patch, text_of, Account, AccountModel, AccountUpdate, AccountView, AccountViewModel,
    Credentials, Registration,
};
use crate::error::{ConflictError, DomainError};
use crate::service::{
    issued_by, login_refusal, outcome_view, patch_of, registered, registration_conflict,
    rehashed, signed_view, AccountService,
};
use crate::state::{bound, issued_with, lemma_issued_with, ServerState};
use crate::store::{patch_refusal, patched_rows, row_by_email, row_by_id};
use crate::token::{signed_token, SessionToken, TokenSigner};

verus! {

/// Status of a plain success.
pub const STATUS_OK: u16 = 200;

/// Status of a registration that went through.
pub const STATUS_CREATED: u16 = 201;

/// Status of refused credentials.
pub const STATUS_UNAUTHORIZED: u16 = 401;

/// Status of a lookup by id that found nothing.
pub const STATUS_NOT_FOUND: u16 = 404;

/// Status of a taken email or username.
pub const STATUS_CONFLICT: u16 = 409;

/// Status of a fault on the server's side.
pub const STATUS_INTERNAL_SERVER_ERROR: u16 = 500;

/// The status that stands for an error kind. What is the server's fault is
/// a plain internal error to the caller.
pub open spec fn status_of(e: DomainError) -> u16 {
    match e {
        DomainError::InvalidCredentials => STATUS_UNAUTHORIZED,
        DomainError::Conflict(_) => STATUS_CONFLICT,
        DomainError::NotFound => STATUS_NOT_FOUND,
        DomainError::RegistrationFailed => STATUS_INTERNAL_SERVER_ERROR,
        DomainError::HashingError => STATUS_INTERNAL_SERVER_ERROR,
        DomainError::VerificationError => STATUS_INTERNAL_SERVER_ERROR,
        DomainError::StoreError => STATUS_INTERNAL_SERVER_ERROR,
        DomainError::TokenIssuanceFailed => STATUS_INTERNAL_SERVER_ERROR,
    }
}

/// An error as the REST adapter answers it.
#[derive(Clone, Copy, Debug, PartialEq, Eq, Structural)]
pub struct RestError {
    pub status: u16,
    pub kind: DomainError,
}

impl RestError {
    /// The answer for an error kind.
    pub open spec fn of(e: DomainError) -> RestError {
        RestError { status: status_of(e), kind: e }
    }

    /// The answer for an error kind.
    pub fn from_domain(e: DomainError) -> (r: RestError)
        ensures
            r == RestError::of(e),
    {
        let status = match e {
            DomainError::InvalidCredentials => STATUS_UNAUTHORIZED,
            DomainError::Conflict(_) => STATUS_CONFLICT,
            DomainError::NotFound => STATUS_NOT_FOUND,
            DomainError::RegistrationFailed
            | DomainError::HashingError
            | DomainError::VerificationError
            | DomainError::StoreError
            | DomainError::TokenIssuanceFailed => STATUS_INTERNAL_SERVER_ERROR,
        };
        RestError { status, kind: e }
    }
}

/// What the caller is told about an error. A fault on the server's side
/// is never told apart from another.
pub open spec fn shown(e: DomainError) -> Seq<char> {
    match e {
        DomainError::InvalidCredentials => "invalid credentials"@,
        DomainError::Conflict(ConflictError::EmailTaken) => "email taken"@,
        DomainError::Conflict(ConflictError::UsernameTaken) => "username taken"@,
        DomainError::NotFound => "not found"@,
        DomainError::RegistrationFailed => "internal error"@,
        DomainError::HashingError => "internal error"@,
        DomainError::VerificationError => "internal error"@,
        DomainError::StoreError => "internal error"@,
        DomainError::TokenIssuanceFailed => "internal error"@,
    }
}

/// What the caller is told about an error.
pub fn error_text(e: DomainError) -> (r: &'static str)
    ensures
        r@ == shown(e),
{
    match e {
        DomainError::InvalidCredentials => "invalid credentials",
        DomainError::Conflict(ConflictError::EmailTaken) => "email taken",
        DomainError::Conflict(ConflictError::UsernameTaken) => "username taken",
        DomainError::NotFound => "not found",
        DomainError::RegistrationFailed
        | DomainError::HashingError
        | DomainError::VerificationError
        | DomainError::StoreError
        | DomainError::TokenIssuanceFailed => "internal error",
    }
}

/// Errors under the status of an internal error are shown alike.
pub proof fn lemma_faults_are_shown_alike(a: DomainError, b: DomainError)
    requires
        status_of(a) == STATUS_INTERNAL_SERVER_ERROR,
        status_of(b) == STATUS_INTERNAL_SERVER_ERROR,
    ensures
        shown(a) == shown(b),
{
}

/// The body of every answer about an account.
pub struct UserResponse {
    pub user: AccountView,
}

impl View for UserResponse {
    type V = AccountViewModel;

    open spec fn view(&self) -> AccountViewModel {
        self.user@
    }
}

impl From<AccountView> for UserResponse {
    fn from(user: AccountView) -> (r: Self) {
        UserResponse { user }
    }
}

impl vstd::std_specs::convert::FromSpecImpl<AccountView> for UserResponse {
    open spec fn obeys_from_spec() -> bool {
        true
    }

    open spec fn from_spec(user: AccountView) -> Self {
        UserResponse { user }
    }
}

/// What a handler answers when all went well.
pub struct Reply {
    pub status: u16,
    /// The value of a `Set-Cookie` header, where the answer carries one.
    pub set_cookie: Option<String>,
    pub body: UserResponse,
}

/// A handler's answer as a mathematical value.
pub struct ReplyModel {
    pub status: u16,
    pub set_cookie: Option<Seq<char>>,
    pub user: AccountViewModel,
}

impl View for Reply {
    type V = ReplyModel;

    open spec fn view(&self) -> ReplyModel {
        ReplyModel { status: self.status, set_cookie: text_of(self.set_cookie), user: self.body@ }
    }
}

/// The cookie that delivers `token`.
pub open spec fn cookie_text(token: Seq<char>) -> Seq<char> {
    "token="@ + token + "; Path=/; HttpOnly"@
}

/// The cookie that delivers `token`.
pub fn set_cookie_token(token: &str) -> (r: String)
    ensures
        r@ == cookie_text(token@),
{
    let mut cookie = String::from_str("token=");
    cookie.append(token);
    cookie.append("; Path=/; HttpOnly");
    cookie
}

/// The answer that an endpoint makes of an account operation's outcome:
/// the view under `status`, with the token in a cookie where the endpoint
/// sets one, or the error under its own status.
pub open spec fn reply_of(
    status: u16,
    with_cookie: bool,
    outcome: Result<AccountViewModel, DomainError>,
) -> Result<ReplyModel, RestError> {
    match outcome {
        Ok(user) => Ok(
            ReplyModel {
                status,
                set_cookie: match user.token {
                    Some(t) if with_cookie => Some(cookie_text(t)),
                    _ => None,
                },
                user,
            },
        ),
        Err(e) => Err(RestError::of(e)),
    }
}

/// The mathematical content of a handler's result.
pub open spec fn reply_view(r: Result<Reply, RestError>) -> Result<ReplyModel, RestError> {
    match r {
        Ok(reply) => Ok(reply@),
        Err(e) => Err(e),
    }
}

/// Makes an endpoint's answer of an account operation's outcome.
pub fn reply_from(status: u16, with_cookie: bool, outcome: Result<AccountView, DomainError>) -> (r:
    Result<Reply, RestError>)
    ensures
        reply_view(r) == reply_of(status, with_cookie, outcome_view(outcome)),
{
    match outcome {
        Ok(user) => {
            let set_cookie = match &user.token {
                Some(token) => {
                    if with_cookie {
                        Some(set_cookie_token(token.as_str()))
                    } else {
                        None
                    }
                },
                None => None,
            };
            Ok(Reply { status, set_cookie, body: UserResponse::from(user) })
        },
        Err(e) => Err(RestError::from_domain(e)),
    }
}

/// The token that a request presents: the one in its authorization header
/// if it has one, else the one in its cookie.
pub fn presented_token(authorization: Option<String>, cookie: Option<String>) -> (r: Option<
    String,
>)
    ensures
        r == if authorization is Some {
            authorization
        } else {
            cookie
        },
{
    match authorization {
        Some(token) => Some(token),
        None => cookie,
    }
}

/// `r` is the answer of an endpoint for the account `row` once `signer` has
/// signed at some time: the view with the token under `status`, or the
/// answer for `TokenIssuanceFailed`.
pub open spec fn answered(
    signer: TokenSigner,
    status: u16,
    with_cookie: bool,
    row: AccountModel,
    r: Result<Reply, RestError>,
) -> bool {
    exists|outcome: Result<AccountViewModel, DomainError>| #[trigger]
        issued_with(signer, row, outcome) && reply_view(r) == reply_of(status, with_cookie, outcome)
}

/// `GET /user`: the caller's own account with a fresh token.
pub fn get_user_handler(state: &ServerState, user: &Account) -> (r: Result<Reply, RestError>)
    ensures
        answered(state.signer, STATUS_OK, false, user@, r),
{
    let signed = ServerState::sign_for(&state.signer, user);
    let outcome = AccountService::issue(user, signed);
    assert(issued_with(state.signer, user@, outcome_view(outcome)));
    let r = reply_from(STATUS_OK, false, outcome);
    assert(answered(state.signer, STATUS_OK, false, user@, r));
    r
}

/// `POST /users/login`: logs in and delivers the token in the body and in
/// a cookie.
pub fn login_handler(payload: &Credentials, state: &ServerState) -> (r: Result<Reply, RestError>)
    requires
        state.wf(),
    ensures
        match login_refusal(row_by_email(state.accounts@, payload.email@), payload.password@) {
            Some(e) => r == Err::<Reply, RestError>(RestError::of(e)),
            None => answered(
                state.signer,
                STATUS_OK,
                true,
                row_by_email(state.accounts@, payload.email@)->0,
                r,
            ),
        },
{
    let signer = &state.signer;
    let sign_fn = |user: &Account| -> (signed: Result<SessionToken, DomainError>)
        ensures
            exists|now: u64|
                signed_view(signed) == bound(
                    #[trigger] signed_token(signer.key(), signer.ttl(), user@.id, now),
                ),
        { ServerState::sign_for(signer, user) };
    let outcome = state.accounts.login(payload, sign_fn);
    let r = reply_from(STATUS_OK, true, outcome);
    proof {
        if login_refusal(row_by_email(state.accounts@, payload.email@), payload.password@)
            is None {
            let row = row_by_email(state.accounts@, payload.email@)->0;
            lemma_issued_with(sign_fn, state.signer, row, outcome);
            assert(answered(state.signer, STATUS_OK, true, row, r));
        }
    }
    r
}

/// `POST /users`: registers an account and delivers its first token in
/// the body and in a cookie, under the status for a created resource.
pub fn register_handler(payload: &Registration, state: &mut ServerState) -> (r: Result<
    Reply,
    RestError,
>)
    requires
        old(state).wf(),
    ensures
        final(state).wf(),
        final(state).signer == old(state).signer,
        match registration_conflict(old(state).accounts@, payload.email@, payload.username@) {
            Some(e) => {
                &&& r == Err::<Reply, RestError>(RestError::of(e))
                &&& final(state).accounts.untouched(&old(state).accounts)
            },
            None => {
                ||| {
                    &&& r == Err::<Reply, RestError>(
                        RestError::of(DomainError::RegistrationFailed),
                    )
                    &&& final(state).accounts.untouched(&old(state).accounts)
                }
                ||| {
                    &&& old(state).accounts.next_id() == u64::MAX
                    &&& r == Err::<Reply, RestError>(RestError::of(DomainError::StoreError))
                    &&& final(state).accounts.untouched(&old(state).accounts)
                }
                ||| exists|row: AccountModel|
                    {
                        &&& #[trigger] registered(
                            old(state).accounts.next_id(),
                            payload.email@,
                            payload.username@,
                            payload.password@,
                            row,
                        )
                        &&& final(state).accounts@ == old(state).accounts@.push(row)
                        &&& final(state).accounts.next_id() == old(state).accounts.next_id() + 1
                        &&& answered(old(state).signer, STATUS_CREATED, true, row, r)
                    }
            },
        },
{
    let signer = &state.signer;
    let sign_fn = |user: &Account| -> (signed: Result<SessionToken, DomainError>)
        ensures
            exists|now: u64|
                signed_view(signed) == bound(
                    #[trigger] signed_token(signer.key(), signer.ttl(), user@.id, now),
                ),
        { ServerState::sign_for(signer, user) };
    let outcome = state.accounts.register(payload, sign_fn);
    let r = reply_from(STATUS_CREATED, true, outcome);
    proof {
        if registration_conflict(old(state).accounts@, payload.email@, payload.username@)
            is None && !state.accounts.untouched(&old(state).accounts) {
            let row = choose|row: AccountModel|
                {
                    &&& #[trigger] registered(
                        old(state).accounts.next_id(),
                        payload.email@,
                        payload.username@,
                        payload.password@,
                        row,
                    )
                    &&& state.accounts@ == old(state).accounts@.push(row)
                    &&& state.accounts.next_id() == old(state).accounts.next_id() + 1
                    &&& issued_by(sign_fn, row, outcome)
                };
            lemma_issued_with(sign_fn, state.signer, row, outcome);
            assert(answered(state.signer, STATUS_CREATED, true, row, r));
        }
    }
    r
}

/// `PUT /user`: updates the caller's own account and answers with a fresh
/// token in the body.
pub fn update_user_handler(payload: &AccountUpdate, state: &mut ServerState, user: &Account) -> (r:
    Result<Reply, RestError>)
    requires
        old(state).wf(),
    ensures
        final(state).wf(),
        final(state).signer == old(state).signer,
        final(state).accounts.next_id() == old(state).accounts.next_id(),
        ({
            ||| {
                &&& payload.password is Some
                &&& r == Err::<Reply, RestError>(RestError::of(DomainError::HashingError))
                &&& final(state).accounts@ == old(state).accounts@
            }
            ||| exists|new_hash: Option<Seq<char>>|
                {
                    &&& #[trigger] rehashed(*payload, new_hash)
                    &&& match patch_refusal(
                        old(state).accounts@,
                        user@.id,
                        patch_of(*payload, new_hash),
                    ) {
                        Some(e) => {
                            &&& r == Err::<Reply, RestError>(
                                RestError::of(DomainError::of_store(e)),
                            )
                            &&& final(state).accounts@ == old(state).accounts@
                        },
                        None => {
                            &&& row_by_id(old(state).accounts@, user@.id) matches Some(before)
                            &&& final(state).accounts@ == patched_rows(
                                old(state).accounts@,
                                user@.id,
                                patch_of(*payload, new_hash),
                            )
                            &&& answered(
                                old(state).signer,
                                STATUS_OK,
                                false,
                                apply_patch(before, patch_of(*payload, new_hash)),
                                r,
                            )
                        },
                    }
                }
        }),
{
    let signer = &state.signer;
    let sign_fn = |account: &Account| -> (signed: Result<SessionToken, DomainError>)
        ensures
            exists|now: u64|
                signed_view(signed) == bound(
                    #[trigger] signed_token(signer.key(), signer.ttl(), account@.id, now),
                ),
        { ServerState::sign_for(signer, account) };
    let outcome = state.accounts.update_account(payload, user, sign_fn);
    let r = reply_from(STATUS_OK, false, outcome);
    proof {
        if !(payload.password is Some && outcome == Err::<AccountView, DomainError>(
            DomainError::HashingError,
        ) && state.accounts@ == old(state).accounts@) {
            let new_hash = choose|new_hash: Option<Seq<char>>|
                {
                    &&& #[trigger] rehashed(*payload, new_hash)
                    &&& match patch_refusal(
                        old(state).accounts@,
                        user@.id,
                        patch_of(*payload, new_hash),
                    ) {
                        Some(e) => {
                            &&& outcome == Err::<AccountView, DomainError>(
                                DomainError::of_store(e),
                            )
                            &&& state.accounts@ == old(state).accounts@
                        },
                        None => {
                            &&& row_by_id(old(state).accounts@, user@.id) matches Some(before)
                            &&& state.accounts@ == patched_rows(
                                old(state).accounts@,
                                user@.id,
                                patch_of(*payload, new_hash),
                            )
                            &&& issued_by(
                                sign_fn,
                                apply_patch(before, patch_of(*payload, new_hash)),
                                outcome,
                            )
                        },
                    }
                };
            let patch = patch_of(*payload, new_hash);
            if patch_refusal(old(state).accounts@, user@.id, patch) is None {
                let before = row_by_id(old(state).accounts@, user@.id)->0;
                let after = apply_patch(before, patch);
                lemma_issued_with(sign_fn, state.signer, after, outcome);
                assert(answered(state.signer, STATUS_OK, false, after, r));
            }
        }
    }
    r
}

/// The request methods that the account endpoints answer.
#[derive(Clone, Copy, Debug, PartialEq, Eq, Structural)]
pub enum Method {
    Get,
    Put,
    Post,
}

/// The account endpoints.
#[derive(Clone, Copy, Debug, PartialEq, Eq, Structural)]
pub enum Endpoint {
    /// `GET /user`
    GetUser,
    /// `PUT /user`
    UpdateUser,
    /// `POST /users/login`
    Login,
    /// `POST /users`
    Register,
}

/// One line of the routing table.
pub struct Route {
    pub endpoint: Endpoint,
    pub method: Method,
    /// The path, one entry for each segment between slashes.
    pub segments: Vec<String>,
    /// The request carries a JSON body.
    pub takes_body: bool,
    /// The caller has to be authenticated before the handler runs.
    pub needs_auth: bool,
}

/// One line of the routing table as a mathematical value.
pub struct RouteModel {
    pub endpoint: Endpoint,
    pub method: Method,
    pub segments: Seq<Seq<char>>,
    pub takes_body: bool,
    pub needs_auth: bool,
}

/// The mathematical content of a path.
pub open spec fn path_of(segments: Seq<String>) -> Seq<Seq<char>> {
    segments.map_values(|s: String| s@)
}

impl View for Route {
    type V = RouteModel;

    open spec fn view(&self) -> RouteModel {
        RouteModel {
            endpoint: self.endpoint,
            method: self.method,
            segments: path_of(self.segments@),
            takes_body: self.takes_body,
            needs_auth: self.needs_auth,
        }
    }
}

/// The account routes in the order in which they are tried.
pub open spec fn route_table() -> Seq<RouteModel> {
    seq![
        RouteModel {
            endpoint: Endpoint::GetUser,
            method: Method::Get,
            segments: seq!["user"@],
            takes_body: false,
            needs_auth: true,
        },
        RouteModel {
            endpoint: Endpoint::UpdateUser,
            method: Method::Put,
            segments: seq!["user"@],
            takes_body: true,
            needs_auth: true,
        },
        RouteModel {
            endpoint: Endpoint::Login,
            method: Method::Post,
            segments: seq!["users"@, "login"@],
            takes_body: true,
            needs_auth: false,
        },
        RouteModel {
            endpoint: Endpoint::Register,
            method: Method::Post,
            segments: seq!["users"@],
            takes_body: true,
            needs_auth: false,
        },
    ]
}

/// The place of the first route from `from` on that has this method and
/// this path, if there is one.
pub open spec fn first_match(
    table: Seq<RouteModel>,
    method: Method,
    segments: Seq<Seq<char>>,
    from: int,
) -> Option<int>
    decreases table.len() - from,
{
    if from < 0 || from >= table.len() {
        None
    } else if table[from].method == method && table[from].segments == segments {
        Some(from)
    } else {
        first_match(table, method, segments, from + 1)
    }
}

/// A path of one segment.
fn path1(a: &str) -> (r: Vec<String>)
    ensures
        path_of(r@) == seq![a@],
{
    let mut path = Vec::new();
    path.push(String::from_str(a));
    path
}

/// A path of two segments.
fn path2(a: &str, b: &str) -> (r: Vec<String>)
    ensures
        path_of(r@) == seq![a@, b@],
{
    let mut path = Vec::new();
    path.push(String::from_str(a));
    path.push(String::from_str(b));
    path
}

/// The mathematical content of a routing table.
pub open spec fn table_of(routes: Seq<Route>) -> Seq<RouteModel> {
    routes.map_values(|r: Route| r@)
}

/// The account routes in the order in which they are tried: the caller's
/// own account, its update, login, registration.
pub fn routes() -> (r: Vec<Route>)
    ensures
        table_of(r@) == route_table(),
{
    let mut table = Vec::new();
    table.push(
        Route {
            endpoint: Endpoint::GetUser,
            method: Method::Get,
            segments: path1("user"),
            takes_body: false,
            needs_auth: true,
        },
    );
    table.push(
        Route {
            endpoint: Endpoint::UpdateUser,
            method: Method::Put,
            segments: path1("user"),
            takes_body: true,
            needs_auth: true,
        },
    );
    table.push(
        Route {
            endpoint: Endpoint::Login,
            method: Method::Post,
            segments: path2("users", "login"),
            takes_body: true,
            needs_auth: false,
        },
    );
    table.push(
        Route {
            endpoint: Endpoint::Register,
            method: Method::Post,
            segments: path1("users"),
            takes_body: true,
            needs_auth: false,
        },
    );
    table
}

/// Whether two paths are the same.
fn same_path(a: &Vec<String>, b: &Vec<String>) -> (r: bool)
    ensures
        r == (path_of(a@) == path_of(b@)),
{
    if a.len() != b.len() {
        assert(path_of(a@).len() != path_of(b@).len());
        return false;
    }
    let mut k: usize = 0;
    while k < a.len()
        invariant
            a@.len() == b@.len(),
            k <= a@.len(),
            forall|i: int| 0 <= i < k ==> a@[i]@ == b@[i]@,
        decreases a@.len() - k,
    {
        if a[k] != b[k] {
            assert(path_of(a@)[k as int] != path_of(b@)[k as int]);
            return false;
        }
        k += 1;
    }
    assert(path_of(a@) =~= path_of(b@));
    true
}

/// The REST adapter's routing table.
pub struct Rest {
    table: Vec<Route>,
}

impl View for Rest {
    type V = Seq<RouteModel>;

    closed spec fn view(&self) -> Seq<RouteModel> {
        table_of(self.table@)
    }
}

/// The mathematical content of an optional route.
pub open spec fn route_of(r: Option<&Route>) -> Option<RouteModel> {
    match r {
        Some(r) => Some(r@),
        None => None,
    }
}

impl Rest {
    /// The adapter with the account routes mounted.
    pub fn new() -> (r: Self)
        ensures
            r@ == route_table(),
    {
        Rest { table: routes() }
    }

    /// The route that a request reaches: the first in the table with its
    /// method and its path.
    pub fn route(&self, method: Method, segments: &Vec<String>) -> (r: Option<&Route>)
        ensures
            route_of(r) == match first_match(self@, method, path_of(segments@), 0) {
                Some(k) => Some(self@[k]),
                None => None,
            },
    {
        let mut k: usize = 0;
        while k < self.table.len()
            invariant
                k <= self.table@.len(),
                self@.len() == self.table@.len(),
                first_match(self@, method, path_of(segments@), 0) == first_match(
                    self@,
                    method,
                    path_of(segments@),
                    k as int,
                ),
            decreases self.table@.len() - k,
        {
            let route = &self.table[k];
            if route.method == method && same_path(&route.segments, segments) {
                return Some(route);
            }
            k += 1;
        }
        None
    }
}

/// No route hides another: a request with the method and the path of a
/// line of the table reaches that line.
pub proof fn lemma_every_route_is_reached(k: int)
    requires
        0 <= k < route_table().len(),
    ensures
        first_match(route_table(), route_table()[k].method, route_table()[k].segments, 0) == Some(
            k,
        ),
{
    reveal_strlit("user");
    reveal_strlit("users");
    reveal_strlit("login");
    reveal_with_fuel(first_match, 5);
    assert(seq!["users"@].len() == 1);
}

} // verus!
