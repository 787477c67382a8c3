//! The account record and the values that travel with it.

use vstd::prelude::*;
use crate::password::HashedPassword;
use crate::token::SessionToken;

verus! {

/// The mathematical content of an optional text.
pub open spec fn text_of(t: Option<String>) -> Option<Seq<char>> {
    match t {
        Some(s) => Some(s@),
        None => None,
    }
}

/// Copies an optional text.
pub fn copy_text(t: &Option<String>) -> (r: Option<String>)
    ensures
        text_of(r) == text_of(*t),
{
    match t {
        Some(s) => Some(s.clone()),
        None => None,
    }
}

/// An account as a mathematical value.
pub struct AccountModel {
    pub id: u64,
    pub email: Seq<char>,
    pub username: Seq<char>,
    pub bio: Option<Seq<char>>,
    pub image: Option<Seq<char>>,
    pub password_hash: Seq<char>,
}

/// A persisted identity record.
pub struct Account {
    id: u64,
    email: String,
    username: String,
    bio: Option<String>,
    image: Option<String>,
    password_hash: HashedPassword,
}

impl View for Account {
    type V = AccountModel;

    closed spec fn view(&self) -> AccountModel {
        AccountModel {
            id: self.id,
            email: self.email@,
            username: self.username@,
            bio: text_of(self.bio),
            image: text_of(self.image),
            password_hash: self.password_hash@,
        }
    }
}

impl Account {
    /// Builds the record of a row as storage holds it.
    pub fn from_row(
        id: u64,
        email: String,
        username: String,
        bio: Option<String>,
        image: Option<String>,
        password_hash: HashedPassword,
    ) -> (r: Self)
        ensures
            r@ == (AccountModel {
                id,
                email: email@,
                username: username@,
                bio: text_of(bio),
                image: text_of(image),
                password_hash: password_hash@,
            }),
    {
        Account { id, email, username, bio, image, password_hash }
    }

    pub fn id(&self) -> (r: u64)
        ensures
            r == self@.id,
    {
        self.id
    }

    pub fn email(&self) -> (r: &str)
        ensures
            r@ == self@.email,
    {
        self.email.as_str()
    }

    pub fn username(&self) -> (r: &str)
        ensures
            r@ == self@.username,
    {
        self.username.as_str()
    }

    pub fn bio(&self) -> (r: &Option<String>)
        ensures
            text_of(*r) == self@.bio,
    {
        &self.bio
    }

    pub fn image(&self) -> (r: &Option<String>)
        ensures
            text_of(*r) == self@.image,
    {
        &self.image
    }

    /// Whether the account is registered under exactly this email.
    pub fn email_is(&self, email: &String) -> (r: bool)
        ensures
            r == (self@.email == email@),
    {
        self.email == *email
    }

    /// Whether the account goes by exactly this username.
    pub fn username_is(&self, username: &String) -> (r: bool)
        ensures
            r == (self@.username == username@),
    {
        self.username == *username
    }

    /// The stored hash, for the password check and for storage only.
    pub fn password_hash(&self) -> (r: &HashedPassword)
        ensures
            r@ == self@.password_hash,
    {
        &self.password_hash
    }
}

/// What a new row is made from.
pub struct NewAccount {
    pub email: String,
    pub username: String,
    pub password_hash: HashedPassword,
}

/// The row that the table creates under `id`: no bio and no image yet.
pub open spec fn created_row(
    id: u64,
    email: Seq<char>,
    username: Seq<char>,
    password_hash: Seq<char>,
) -> AccountModel {
    AccountModel { id, email, username, bio: None, image: None, password_hash }
}

/// A sparse change to one row: a field that is `None` is left alone.
pub struct AccountPatch {
    pub email: Option<String>,
    pub username: Option<String>,
    pub password_hash: Option<HashedPassword>,
    pub bio: Option<String>,
    pub image: Option<String>,
}

/// A sparse change as a mathematical value.
pub struct PatchModel {
    pub email: Option<Seq<char>>,
    pub username: Option<Seq<char>>,
    pub password_hash: Option<Seq<char>>,
    pub bio: Option<Seq<char>>,
    pub image: Option<Seq<char>>,
}

impl View for AccountPatch {
    type V = PatchModel;

    open spec fn view(&self) -> PatchModel {
        PatchModel {
            email: text_of(self.email),
            username: text_of(self.username),
            password_hash: match self.password_hash {
                Some(h) => Some(h@),
                None => None,
            },
            bio: text_of(self.bio),
            image: text_of(self.image),
        }
    }
}

/// `row` with the fields that `patch` carries replaced, and the others, the
/// id among them, kept.
pub open spec fn apply_patch(row: AccountModel, patch: PatchModel) -> AccountModel {
    AccountModel {
        id: row.id,
        email: match patch.email {
            Some(e) => e,
            None => row.email,
        },
        username: match patch.username {
            Some(u) => u,
            None => row.username,
        },
        bio: match patch.bio {
            Some(b) => Some(b),
            None => row.bio,
        },
        image: match patch.image {
            Some(i) => Some(i),
            None => row.image,
        },
        password_hash: match patch.password_hash {
            Some(h) => h,
            None => row.password_hash,
        },
    }
}

impl Account {
    /// The row that the table creates for `new` under `id`: no bio and no
    /// image yet.
    pub fn create(id: u64, new: NewAccount) -> (r: Self)
        ensures
            r@ == created_row(id, new.email@, new.username@, new.password_hash@),
    {
        Account {
            id,
            email: new.email,
            username: new.username,
            bio: None,
            image: None,
            password_hash: new.password_hash,
        }
    }

    /// This account with the fields that `patch` carries replaced.
    pub fn patched(&self, patch: AccountPatch) -> (r: Self)
        ensures
            r@ == apply_patch(self@, patch@),
    {
        Account {
            id: self.id,
            email: match patch.email {
                Some(e) => e,
                None => self.email.clone(),
            },
            username: match patch.username {
                Some(u) => u,
                None => self.username.clone(),
            },
            bio: match patch.bio {
                Some(b) => Some(b),
                None => copy_text(&self.bio),
            },
            image: match patch.image {
                Some(i) => Some(i),
                None => copy_text(&self.image),
            },
            password_hash: match patch.password_hash {
                Some(h) => h,
                None => self.password_hash.clone(),
            },
        }
    }
}

impl Clone for Account {
    fn clone(&self) -> (r: Self)
        ensures
            r@ == self@,
    {
        Account {
            id: self.id,
            email: self.email.clone(),
            username: self.username.clone(),
            bio: copy_text(&self.bio),
            image: copy_text(&self.image),
            password_hash: self.password_hash.clone(),
        }
    }
}

/// What a client sends to log in. It is never stored.
pub struct Credentials {
    pub email: String,
    pub password: String,
}

/// What a client sends to register. It is never stored: the password
/// leaves this value only as a hash.
pub struct Registration {
    pub email: String,
    pub username: String,
    pub password: String,
}

/// A sparse change that an account asks for on itself: a field that is
/// `None` is left alone.
pub struct AccountUpdate {
    pub email: Option<String>,
    pub username: Option<String>,
    pub password: Option<String>,
    pub bio: Option<String>,
    pub image: Option<String>,
}

/// What the outside world sees of an account. The password hash has no
/// place in it.
pub struct AccountView {
    pub email: String,
    pub username: String,
    pub bio: Option<String>,
    pub image: Option<String>,
    /// Present only on what an account gets back about itself.
    pub token: Option<String>,
}

/// An account view as a mathematical value.
pub struct AccountViewModel {
    pub email: Seq<char>,
    pub username: Seq<char>,
    pub bio: Option<Seq<char>>,
    pub image: Option<Seq<char>>,
    pub token: Option<Seq<char>>,
}

impl View for AccountView {
    type V = AccountViewModel;

    open spec fn view(&self) -> AccountViewModel {
        AccountViewModel {
            email: self.email@,
            username: self.username@,
            bio: text_of(self.bio),
            image: text_of(self.image),
            token: text_of(self.token),
        }
    }
}

/// The view of `account`, with or without a token.
pub open spec fn view_of(account: AccountModel, token: Option<Seq<char>>) -> AccountViewModel {
    AccountViewModel {
        email: account.email,
        username: account.username,
        bio: account.bio,
        image: account.image,
        token,
    }
}

impl AccountView {
    /// What an account gets back about itself: its public fields and a
    /// fresh token.
    pub fn with_token(account: &Account, token: SessionToken) -> (r: Self)
        ensures
            r@ == view_of(account@, Some(token@)),
    {
        AccountView {
            email: account.email.clone(),
            username: account.username.clone(),
            bio: copy_text(&account.bio),
            image: copy_text(&account.image),
            token: Some(token.into_text()),
        }
    }

    /// What anyone may see of an account: no token.
    pub fn public(account: &Account) -> (r: Self)
        ensures
            r@ == view_of(account@, None),
    {
        AccountView {
            email: account.email.clone(),
            username: account.username.clone(),
            bio: copy_text(&account.bio),
            image: copy_text(&account.image),
            token: None,
        }
    }
}

impl Clone for AccountView {
    fn clone(&self) -> (r: Self)
        ensures
            r@ == self@,
    {
        AccountView {
            email: self.email.clone(),
            username: self.username.clone(),
            bio: copy_text(&self.bio),
            image: copy_text(&self.image),
            token: copy_text(&self.token),
        }
    }
}

} // verus!
