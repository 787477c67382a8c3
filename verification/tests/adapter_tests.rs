use account_session::account::{Account, AccountUpdate, AccountView, Credentials, Registration};
use account_session::api::{login, respond};
use account_session::error::{ConflictError, DomainError, SigningError};
use account_session::gql::{Gql, GqlEndpoint, OperationResult};
use account_session::password::{HashedPassword, PasswordCredential};
use account_session::rest::{
    error_text, get_user_handler, login_handler, presented_token, register_handler, reply_from,
    routes, set_cookie_token,
    update_user_handler, Endpoint, Method, Rest, RestError, UserResponse, STATUS_CONFLICT,
    STATUS_CREATED, STATUS_INTERNAL_SERVER_ERROR, STATUS_NOT_FOUND, STATUS_OK,
    STATUS_UNAUTHORIZED,
};
use account_session::service::AccountService;
use account_session::state::ServerState;
use account_session::store::AccountStore;
use account_session::token::{SessionToken, TokenSigner};

fn state_with_key(key: &[u8]) -> ServerState {
    let hasher = PasswordCredential::new(4).expect("in range");
    let accounts = AccountService::new(AccountStore::new(), hasher);
    ServerState::new(accounts, TokenSigner::new(key.to_vec(), 3600))
}

fn state() -> ServerState {
    let mut state = state_with_key(b"process secret");
    let jake = Registration {
        email: "jake@example.com".to_string(),
        username: "jake".to_string(),
        password: "jakejake".to_string(),
    };
    register_handler(&jake, &mut state).expect("a first registration goes through");
    state
}

fn credentials(email: &str, password: &str) -> Credentials {
    Credentials { email: email.to_string(), password: password.to_string() }
}

fn path(segments: &[&str]) -> Vec<String> {
    segments.iter().map(|s| s.to_string()).collect()
}

fn view() -> AccountView {
    AccountView {
        email: "e".to_string(),
        username: "u".to_string(),
        bio: None,
        image: None,
        token: Some("tok".to_string()),
    }
}

#[test]
fn every_error_kind_has_its_status() {
    let expected = [
        (DomainError::InvalidCredentials, 401),
        (DomainError::Conflict(ConflictError::EmailTaken), 409),
        (DomainError::Conflict(ConflictError::UsernameTaken), 409),
        (DomainError::NotFound, 404),
        (DomainError::RegistrationFailed, 500),
        (DomainError::HashingError, 500),
        (DomainError::VerificationError, 500),
        (DomainError::StoreError, 500),
        (DomainError::TokenIssuanceFailed, 500),
    ];
    for (kind, status) in expected {
        assert_eq!(RestError::from_domain(kind), RestError { status, kind });
    }
    assert_eq!(
        (STATUS_OK, STATUS_CREATED, STATUS_UNAUTHORIZED, STATUS_NOT_FOUND, STATUS_CONFLICT),
        (200, 201, 401, 404, 409)
    );
    assert_eq!(STATUS_INTERNAL_SERVER_ERROR, 500);
}

#[test]
fn errors_are_shown_by_kind_and_faults_alike() {
    assert_eq!(error_text(DomainError::InvalidCredentials), "invalid credentials");
    assert_eq!(error_text(DomainError::Conflict(ConflictError::EmailTaken)), "email taken");
    assert_eq!(error_text(DomainError::Conflict(ConflictError::UsernameTaken)), "username taken");
    assert_eq!(error_text(DomainError::NotFound), "not found");
    for fault in [
        DomainError::RegistrationFailed,
        DomainError::HashingError,
        DomainError::VerificationError,
        DomainError::StoreError,
        DomainError::TokenIssuanceFailed,
    ] {
        assert_eq!(error_text(fault), "internal error");
    }
}

#[test]
fn the_header_goes_before_the_cookie() {
    let header = || Some("from-header".to_string());
    let cookie = || Some("from-cookie".to_string());
    assert_eq!(presented_token(header(), cookie()), header());
    assert_eq!(presented_token(header(), None), header());
    assert_eq!(presented_token(None, cookie()), cookie());
    assert_eq!(presented_token(None, None), None);
}

#[test]
fn the_cookie_carries_the_token() {
    assert_eq!(set_cookie_token("abc"), "token=abc; Path=/; HttpOnly");
    assert_eq!(set_cookie_token(""), "token=; Path=/; HttpOnly");
}

#[test]
fn reply_from_shapes_the_outcome() {
    let with = reply_from(201, true, Ok(view())).expect("a view is a reply");
    assert_eq!(with.status, 201);
    assert_eq!(with.set_cookie, Some("token=tok; Path=/; HttpOnly".to_string()));
    assert_eq!(with.body.user.token, Some("tok".to_string()));
    let without = reply_from(200, false, Ok(view())).expect("a view is a reply");
    assert_eq!(without.status, 200);
    assert_eq!(without.set_cookie, None);
    let tokenless = AccountView { token: None, ..view() };
    let plain = reply_from(200, true, Ok(tokenless)).expect("a view is a reply");
    assert_eq!(plain.set_cookie, None);
    let failed = reply_from(200, true, Err(DomainError::InvalidCredentials));
    assert_eq!(
        failed.err(),
        Some(RestError { status: 401, kind: DomainError::InvalidCredentials })
    );
}

#[test]
fn user_response_wraps_the_view() {
    let body = UserResponse::from(view());
    assert_eq!(body.user.email, "e");
    assert_eq!(body.user.token, Some("tok".to_string()));
}

#[test]
fn register_handler_answers_created_with_a_cookie() {
    let mut state = state_with_key(b"process secret");
    let input = Registration {
        email: "jake@example.com".to_string(),
        username: "jake".to_string(),
        password: "jakejake".to_string(),
    };
    let reply = register_handler(&input, &mut state).expect("unique inputs register");
    assert_eq!(reply.status, 201);
    let token = reply.body.user.token.clone().expect("the body carries the token");
    assert_eq!(reply.set_cookie, Some(format!("token={}; Path=/; HttpOnly", token)));
    assert_eq!(reply.body.user.email, "jake@example.com");
    let resolved =
        state.accounts.authenticate(&state.signer, &token).expect("a fresh token resolves");
    assert_eq!(resolved.id(), 1);
    let again = register_handler(&input, &mut state);
    assert_eq!(
        again.err(),
        Some(RestError { status: 409, kind: DomainError::Conflict(ConflictError::EmailTaken) })
    );
    assert_eq!(state.accounts.store().len(), 1);
}

#[test]
fn login_handler_answers_ok_with_a_cookie() {
    let state = state();
    let reply = login_handler(&credentials("jake@example.com", "jakejake"), &state)
        .expect("the right password logs in");
    assert_eq!(reply.status, 200);
    let token = reply.body.user.token.clone().expect("the body carries the token");
    assert_eq!(reply.set_cookie, Some(format!("token={}; Path=/; HttpOnly", token)));
    assert_eq!(state.signer.verify(&token).expect("a fresh token is good").sub, 1);
}

#[test]
fn login_handler_refuses_unknown_and_wrong_alike() {
    let state = state();
    let wrong = login_handler(&credentials("jake@example.com", "wrongpass"), &state);
    let unknown = login_handler(&credentials("nosuchuser@example.com", "anything"), &state);
    let refusal = RestError { status: 401, kind: DomainError::InvalidCredentials };
    assert_eq!(wrong.err(), Some(refusal));
    assert_eq!(unknown.err(), Some(refusal));
}

#[test]
fn handlers_report_a_missing_key_as_an_internal_error() {
    let mut keyless = state_with_key(b"");
    let input = Registration {
        email: "jake@example.com".to_string(),
        username: "jake".to_string(),
        password: "jakejake".to_string(),
    };
    let failure = RestError { status: 500, kind: DomainError::TokenIssuanceFailed };
    assert_eq!(register_handler(&input, &mut keyless).err(), Some(failure));
    assert_eq!(keyless.accounts.store().len(), 1);
    assert_eq!(
        login_handler(&credentials("jake@example.com", "jakejake"), &keyless).err(),
        Some(failure)
    );
    let me = keyless.accounts.store().find_by_id(1).expect("present").clone();
    assert_eq!(get_user_handler(&keyless, &me).err(), Some(failure));
}

#[test]
fn get_user_handler_answers_with_a_fresh_token_and_no_cookie() {
    let state = state();
    let me = state.accounts.store().find_by_id(1).expect("present").clone();
    let reply = get_user_handler(&state, &me).expect("signing works");
    assert_eq!(reply.status, 200);
    assert_eq!(reply.set_cookie, None);
    assert_eq!(reply.body.user.username, "jake");
    let token = reply.body.user.token.expect("the body carries the token");
    assert_eq!(state.signer.verify(&token).expect("a fresh token is good").sub, 1);
}

#[test]
fn update_user_handler_changes_only_what_was_sent() {
    let mut state = state();
    let me = state.accounts.store().find_by_id(1).expect("present").clone();
    let update = AccountUpdate {
        email: None,
        username: None,
        password: None,
        bio: Some("new bio".to_string()),
        image: None,
    };
    let reply = update_user_handler(&update, &mut state, &me).expect("the update goes through");
    assert_eq!(reply.status, 200);
    assert_eq!(reply.set_cookie, None);
    assert_eq!(reply.body.user.bio, Some("new bio".to_string()));
    assert_eq!(reply.body.user.email, "jake@example.com");
    assert!(reply.body.user.token.is_some());
    let after = state.accounts.store().find_by_id(1).expect("present");
    assert_eq!(after.password_hash().as_str(), me.password_hash().as_str());
    assert_eq!(after.username(), "jake");
}

#[test]
fn the_routes_are_the_four_account_endpoints_in_order() {
    let table = routes();
    let lines: Vec<(Endpoint, Method, Vec<String>, bool, bool)> = table
        .iter()
        .map(|r| (r.endpoint, r.method, r.segments.clone(), r.takes_body, r.needs_auth))
        .collect();
    assert_eq!(
        lines,
        vec![
            (Endpoint::GetUser, Method::Get, path(&["user"]), false, true),
            (Endpoint::UpdateUser, Method::Put, path(&["user"]), true, true),
            (Endpoint::Login, Method::Post, path(&["users", "login"]), true, false),
            (Endpoint::Register, Method::Post, path(&["users"]), true, false),
        ]
    );
}

#[test]
fn a_request_reaches_the_route_with_its_method_and_path() {
    let rest = Rest::new();
    let reached = |m: Method, p: &[&str]| rest.route(m, &path(p)).map(|r| r.endpoint);
    assert_eq!(reached(Method::Get, &["user"]), Some(Endpoint::GetUser));
    assert_eq!(reached(Method::Put, &["user"]), Some(Endpoint::UpdateUser));
    assert_eq!(reached(Method::Post, &["users", "login"]), Some(Endpoint::Login));
    assert_eq!(reached(Method::Post, &["users"]), Some(Endpoint::Register));
    assert_eq!(reached(Method::Post, &["user"]), None);
    assert_eq!(reached(Method::Get, &["users"]), None);
    assert_eq!(reached(Method::Get, &["users", "login"]), None);
    assert_eq!(reached(Method::Post, &["users", "logout"]), None);
    assert_eq!(reached(Method::Post, &["users", "login", "x"]), None);
    assert_eq!(reached(Method::Get, &[]), None);
    assert_eq!(reached(Method::Get, &["User"]), None);
}

#[test]
fn the_graphql_adapter_has_two_mounts() {
    let gql = Gql::new();
    assert_eq!(gql.route(&path(&["graphql"])), Some(GqlEndpoint::Graphql));
    assert_eq!(gql.route(&path(&["graphiql"])), Some(GqlEndpoint::Graphiql));
    assert_eq!(gql.route(&path(&["graphql", "x"])), None);
    assert_eq!(gql.route(&path(&["rest"])), None);
    assert_eq!(gql.route(&path(&[])), None);
    assert_eq!(Gql::explorer_target(), "/graphql");
}

#[test]
fn an_operation_without_a_result_reports_success() {
    assert_eq!(OperationResult::from(()), OperationResult { success: true });
    assert!(OperationResult::from(()).success);
}

#[test]
fn the_login_endpoint_answers_by_status() {
    let state = state();
    let found = state.accounts.store().find_by_email("jake@example.com");
    let ok = login(found, &credentials("jake@example.com", "jakejake"), &state.signer);
    assert_eq!(ok.status, 200);
    let body = ok.body.expect("a login carries a body");
    assert_eq!(body.user.email, "jake@example.com");
    let token = body.user.token.expect("the body carries the token");
    assert_eq!(state.signer.verify(&token).expect("a fresh token is good").sub, 1);

    let wrong = login(found, &credentials("jake@example.com", "wrongpass"), &state.signer);
    assert_eq!(wrong.status, 401);
    assert!(wrong.body.is_none());
    let unknown = login(None, &credentials("nosuchuser@example.com", "anything"), &state.signer);
    assert_eq!(unknown.status, 401);
    assert!(unknown.body.is_none());

    let keyless = TokenSigner::new(Vec::new(), 3600);
    let unsigned = login(found, &credentials("jake@example.com", "jakejake"), &keyless);
    assert_eq!(unsigned.status, 500);
    assert!(unsigned.body.is_none());

    let corrupt = Account::from_row(
        2,
        "c@example.com".to_string(),
        "c".to_string(),
        None,
        None,
        HashedPassword::from_stored("corrupt".to_string()),
    );
    let fault = login(Some(&corrupt), &credentials("c@example.com", "x"), &state.signer);
    assert_eq!(fault.status, 500);
}

#[test]
fn respond_maps_outcomes_to_statuses() {
    assert_eq!(respond(Ok(view())).status, 200);
    assert_eq!(respond(Err(DomainError::InvalidCredentials)).status, 401);
    for e in [
        DomainError::Conflict(ConflictError::EmailTaken),
        DomainError::NotFound,
        DomainError::RegistrationFailed,
        DomainError::HashingError,
        DomainError::VerificationError,
        DomainError::StoreError,
        DomainError::TokenIssuanceFailed,
    ] {
        let r = respond(Err(e));
        assert_eq!(r.status, 500);
        assert!(r.body.is_none());
    }
}

#[test]
fn the_bound_signer_hides_the_signers_reason() {
    let ok = ServerState::token_or_failure(Ok(SessionToken::from_text("t".to_string())));
    assert_eq!(ok.expect("a token stays").as_str(), "t");
    for e in [SigningError::KeyUnavailable, SigningError::ClaimsNotEncodable] {
        let failed = ServerState::token_or_failure(Err(e));
        assert!(matches!(failed, Err(DomainError::TokenIssuanceFailed)));
    }
    let signer = TokenSigner::new(b"k".to_vec(), 10);
    let copy = signer.duplicate();
    let account = Account::from_row(
        1,
        "e".to_string(),
        "u".to_string(),
        None,
        None,
        HashedPassword::from_stored("h".to_string()),
    );
    assert_eq!(
        copy.sign_at(&account, 5).expect("signing works").as_str(),
        signer.sign_at(&account, 5).expect("signing works").as_str()
    );
}
