use account_session::account::{Account, AccountPatch, NewAccount};
use account_session::error::StoreError;
use account_session::password::HashedPassword;
use account_session::store::AccountStore;

fn new_account(email: &str, username: &str) -> NewAccount {
    NewAccount {
        email: email.to_string(),
        username: username.to_string(),
        password_hash: HashedPassword::from_stored(format!("hash-of-{}", username)),
    }
}

fn empty_patch() -> AccountPatch {
    AccountPatch { email: None, username: None, password_hash: None, bio: None, image: None }
}

fn two_rows() -> AccountStore {
    let mut store = AccountStore::new();
    store.insert(new_account("a@example.com", "alice")).expect("free");
    store.insert(new_account("b@example.com", "bob")).expect("free");
    store
}

fn fields(a: &Account) -> (u64, String, String, Option<String>, Option<String>, String) {
    (
        a.id(),
        a.email().to_string(),
        a.username().to_string(),
        a.bio().clone(),
        a.image().clone(),
        a.password_hash().as_str().to_string(),
    )
}

#[test]
fn a_new_table_is_empty() {
    let store = AccountStore::new();
    assert_eq!(store.len(), 0);
    assert!(store.find_by_email("a@example.com").is_none());
    assert!(store.find_by_id(1).is_none());
    assert!(!store.email_taken("a@example.com"));
    assert!(!store.username_taken("alice"));
}

#[test]
fn insert_hands_out_ids_from_one() {
    let mut store = AccountStore::new();
    let a = store.insert(new_account("a@example.com", "alice")).expect("free");
    let b = store.insert(new_account("b@example.com", "bob")).expect("free");
    assert_eq!(
        fields(&a),
        (
            1,
            "a@example.com".to_string(),
            "alice".to_string(),
            None,
            None,
            "hash-of-alice".to_string()
        )
    );
    assert_eq!(b.id(), 2);
    assert_eq!(store.len(), 2);
}

#[test]
fn inserted_rows_are_found() {
    let store = two_rows();
    let by_email = store.find_by_email("b@example.com").expect("present");
    assert_eq!(by_email.id(), 2);
    assert_eq!(by_email.username(), "bob");
    let by_id = store.find_by_id(1).expect("present");
    assert_eq!(by_id.email(), "a@example.com");
    assert!(store.find_by_email("c@example.com").is_none());
    assert!(store.find_by_email("A@example.com").is_none());
    assert!(store.find_by_id(3).is_none());
    assert!(store.find_by_id(0).is_none());
    assert!(store.email_taken("a@example.com"));
    assert!(store.username_taken("bob"));
    assert!(!store.username_taken("a@example.com"));
}

#[test]
fn insert_refuses_a_taken_email_and_writes_nothing() {
    let mut store = two_rows();
    let refused = store.insert(new_account("a@example.com", "carol"));
    assert!(matches!(refused, Err(StoreError::DuplicateEmail)));
    assert_eq!(store.len(), 2);
    assert!(!store.username_taken("carol"));
    let next = store.insert(new_account("c@example.com", "carol")).expect("free");
    assert_eq!(next.id(), 3);
}

#[test]
fn insert_refuses_a_taken_username_and_writes_nothing() {
    let mut store = two_rows();
    let refused = store.insert(new_account("c@example.com", "alice"));
    assert!(matches!(refused, Err(StoreError::DuplicateUsername)));
    assert_eq!(store.len(), 2);
    assert!(!store.email_taken("c@example.com"));
}

#[test]
fn insert_stops_when_the_ids_run_out() {
    let mut store = AccountStore::starting_at(u64::MAX - 1);
    let last = store.insert(new_account("a@example.com", "alice")).expect("one id is left");
    assert_eq!(last.id(), u64::MAX - 1);
    let refused = store.insert(new_account("b@example.com", "bob"));
    assert!(matches!(refused, Err(StoreError::Unavailable)));
    assert_eq!(store.len(), 1);
    let taken = store.insert(new_account("a@example.com", "bob"));
    assert!(matches!(taken, Err(StoreError::DuplicateEmail)));
}

#[test]
fn insert_looks_at_the_email_first() {
    let mut store = two_rows();
    let refused = store.insert(new_account("a@example.com", "bob"));
    assert!(matches!(refused, Err(StoreError::DuplicateEmail)));
}

#[test]
fn update_changes_only_what_the_patch_carries() {
    let mut store = two_rows();
    let patch = AccountPatch { bio: Some("new bio".to_string()), ..empty_patch() };
    let updated = store.update(1, patch).expect("present");
    assert_eq!(
        fields(&updated),
        (
            1,
            "a@example.com".to_string(),
            "alice".to_string(),
            Some("new bio".to_string()),
            None,
            "hash-of-alice".to_string()
        )
    );
    assert_eq!(fields(store.find_by_id(1).expect("present")), fields(&updated));
    let other = store.find_by_id(2).expect("present");
    assert_eq!(
        fields(other),
        (2, "b@example.com".to_string(), "bob".to_string(), None, None, "hash-of-bob".to_string())
    );
}

#[test]
fn update_can_change_every_field_but_the_id() {
    let mut store = two_rows();
    let patch = AccountPatch {
        email: Some("z@example.com".to_string()),
        username: Some("zed".to_string()),
        password_hash: Some(HashedPassword::from_stored("new-hash".to_string())),
        bio: Some("bio".to_string()),
        image: Some("http://img".to_string()),
    };
    let updated = store.update(2, patch).expect("present");
    assert_eq!(
        fields(&updated),
        (
            2,
            "z@example.com".to_string(),
            "zed".to_string(),
            Some("bio".to_string()),
            Some("http://img".to_string()),
            "new-hash".to_string()
        )
    );
    assert!(store.find_by_email("b@example.com").is_none());
    assert_eq!(store.find_by_email("z@example.com").expect("present").id(), 2);
    assert_eq!(store.len(), 2);
}

#[test]
fn an_empty_patch_changes_nothing() {
    let mut store = two_rows();
    let before = fields(store.find_by_id(1).expect("present"));
    let updated = store.update(1, empty_patch()).expect("present");
    assert_eq!(fields(&updated), before);
}

#[test]
fn update_refuses_what_belongs_to_another_row() {
    let mut store = two_rows();
    let email = AccountPatch { email: Some("b@example.com".to_string()), ..empty_patch() };
    assert!(matches!(store.update(1, email), Err(StoreError::DuplicateEmail)));
    let username = AccountPatch {
        username: Some("bob".to_string()),
        bio: Some("lost".to_string()),
        ..empty_patch()
    };
    assert!(matches!(store.update(1, username), Err(StoreError::DuplicateUsername)));
    let both = AccountPatch {
        email: Some("b@example.com".to_string()),
        username: Some("bob".to_string()),
        ..empty_patch()
    };
    assert!(matches!(store.update(1, both), Err(StoreError::DuplicateEmail)));
    let row = store.find_by_id(1).expect("present");
    assert_eq!(row.email(), "a@example.com");
    assert_eq!(row.username(), "alice");
    assert_eq!(row.bio(), &None);
}

#[test]
fn update_accepts_a_rows_own_email_and_username() {
    let mut store = two_rows();
    let own = AccountPatch {
        email: Some("a@example.com".to_string()),
        username: Some("alice".to_string()),
        ..empty_patch()
    };
    let updated = store.update(1, own).expect("its own values are no conflict");
    assert_eq!(updated.email(), "a@example.com");
}

#[test]
fn update_of_a_missing_row_is_refused() {
    let mut store = two_rows();
    let patch = AccountPatch { bio: Some("x".to_string()), ..empty_patch() };
    assert!(matches!(store.update(9, patch), Err(StoreError::MissingRow)));
    let taken = AccountPatch { email: Some("a@example.com".to_string()), ..empty_patch() };
    assert!(matches!(store.update(9, taken), Err(StoreError::MissingRow)));
    assert_eq!(store.len(), 2);
}

#[test]
fn account_pieces_read_back() {
    let account = Account::from_row(
        5,
        "e@example.com".to_string(),
        "eve".to_string(),
        Some("bio".to_string()),
        None,
        HashedPassword::from_stored("h".to_string()),
    );
    assert_eq!(
        fields(&account),
        (
            5,
            "e@example.com".to_string(),
            "eve".to_string(),
            Some("bio".to_string()),
            None,
            "h".to_string()
        )
    );
    assert_eq!(fields(&account.clone()), fields(&account));
    assert!(account.email_is(&"e@example.com".to_string()));
    assert!(!account.email_is(&"eve".to_string()));
    assert!(account.username_is(&"eve".to_string()));
    let created = Account::create(8, new_account("n@example.com", "nan"));
    assert_eq!(
        fields(&created),
        (8, "n@example.com".to_string(), "nan".to_string(), None, None, "hash-of-nan".to_string())
    );
    let patched = account.patched(AccountPatch { image: Some("i".to_string()), ..empty_patch() });
    assert_eq!(
        fields(&patched),
        (
            5,
            "e@example.com".to_string(),
            "eve".to_string(),
            Some("bio".to_string()),
            Some("i".to_string()),
            "h".to_string()
        )
    );
}
