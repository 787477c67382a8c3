//! The table of accounts and what it keeps unique.

use vstd::prelude::*;
use crate::account::{
    apply_patch, created_row, Account, AccountModel, AccountPatch, NewAccount, PatchModel,
};
use crate::error::StoreError;

verus! {

/// Some row other than the one with id `except` holds `email`.
pub open spec fn email_held(
    rows: Seq<AccountModel>,
    email: Seq<char>,
    except: Option<u64>,
) -> bool {
    exists|i: int|
        0 <= i < rows.len() && (#[trigger] rows[i]).email == email && except != Some(rows[i].id)
}

/// Some row other than the one with id `except` holds `username`.
pub open spec fn username_held(
    rows: Seq<AccountModel>,
    username: Seq<char>,
    except: Option<u64>,
) -> bool {
    exists|i: int|
        0 <= i < rows.len() && (#[trigger] rows[i]).username == username && except != Some(
            rows[i].id,
        )
}

/// Some row has the id.
pub open spec fn has_id(rows: Seq<AccountModel>, id: u64) -> bool {
    exists|i: int| 0 <= i < rows.len() && (#[trigger] rows[i]).id == id
}

/// The row with the given email, if there is one.
pub open spec fn row_by_email(rows: Seq<AccountModel>, email: Seq<char>) -> Option<AccountModel> {
    if email_held(rows, email, None) {
        Some(rows[choose|i: int| 0 <= i < rows.len() && (#[trigger] rows[i]).email == email])
    } else {
        None
    }
}

/// The row with the given id, if there is one.
pub open spec fn row_by_id(rows: Seq<AccountModel>, id: u64) -> Option<AccountModel> {
    if has_id(rows, id) {
        Some(rows[choose|i: int| 0 <= i < rows.len() && (#[trigger] rows[i]).id == id])
    } else {
        None
    }
}

/// No two rows share an id, an email or a username.
pub open spec fn unique_rows(rows: Seq<AccountModel>) -> bool {
    forall|i: int, j: int|
        0 <= i < rows.len() && 0 <= j < rows.len() && i != j ==> {
            &&& (#[trigger] rows[i]).id != (#[trigger] rows[j]).id
            &&& rows[i].email != rows[j].email
            &&& rows[i].username != rows[j].username
        }
}

/// What the table asks of its rows: they are unique, and every id was
/// handed out before `next_id`.
pub open spec fn table_wf(rows: Seq<AccountModel>, next_id: u64) -> bool {
    &&& unique_rows(rows)
    &&& forall|i: int| 0 <= i < rows.len() ==> (#[trigger] rows[i]).id < next_id
}

/// The mathematical content of an optional account.
pub open spec fn account_of(a: Option<&Account>) -> Option<AccountModel> {
    match a {
        Some(a) => Some(a@),
        None => None,
    }
}

/// The rows after `patch` was applied to the one with id `id`.
pub open spec fn patched_rows(rows: Seq<AccountModel>, id: u64, patch: PatchModel) -> Seq<
    AccountModel,
> {
    Seq::new(
        rows.len(),
        |i: int|
            if rows[i].id == id {
                apply_patch(rows[i], patch)
            } else {
                rows[i]
            },
    )
}

/// Why the table refuses `patch` for the row `id`, if it does: the row is
/// missing, or a new email or username belongs to another row. The email is
/// looked at before the username.
pub open spec fn patch_refusal(rows: Seq<AccountModel>, id: u64, patch: PatchModel) -> Option<
    StoreError,
> {
    if !has_id(rows, id) {
        Some(StoreError::MissingRow)
    } else if patch.email is Some && email_held(rows, patch.email->0, Some(id)) {
        Some(StoreError::DuplicateEmail)
    } else if patch.username is Some && username_held(rows, patch.username->0, Some(id)) {
        Some(StoreError::DuplicateUsername)
    } else {
        None
    }
}

/// Why the table refuses a new row, if it does. The email is looked at
/// before the username, and both before the supply of ids.
pub open spec fn insert_refusal(
    rows: Seq<AccountModel>,
    next_id: u64,
    email: Seq<char>,
    username: Seq<char>,
) -> Option<StoreError> {
    if email_held(rows, email, None) {
        Some(StoreError::DuplicateEmail)
    } else if username_held(rows, username, None) {
        Some(StoreError::DuplicateUsername)
    } else if next_id == u64::MAX {
        Some(StoreError::Unavailable)
    } else {
        None
    }
}

/// An in-memory table of accounts. It alone decides whether an email or a
/// username is free: what it refuses was never written.
pub struct AccountStore {
    rows: Vec<Account>,
    next_id: u64,
}

impl View for AccountStore {
    type V = Seq<AccountModel>;

    closed spec fn view(&self) -> Seq<AccountModel> {
        self.rows@.map_values(|a: Account| a@)
    }
}

impl AccountStore {
    /// The id that the next new row gets.
    pub closed spec fn next_id(&self) -> u64 {
        self.next_id
    }

    /// The table's invariant.
    pub open spec fn wf(&self) -> bool {
        table_wf(self@, self.next_id())
    }

    /// An empty table whose first row gets the id 1.
    pub fn new() -> (r: Self)
        ensures
            r.wf(),
            r@ == Seq::<AccountModel>::empty(),
            r.next_id() == 1,
    {
        let r = AccountStore { rows: Vec::new(), next_id: 1 };
        assert(r@ =~= Seq::<AccountModel>::empty());
        r
    }

    /// An empty table whose first row gets the id `first_id`.
    pub fn starting_at(first_id: u64) -> (r: Self)
        ensures
            r.wf(),
            r@ == Seq::<AccountModel>::empty(),
            r.next_id() == first_id,
    {
        let r = AccountStore { rows: Vec::new(), next_id: first_id };
        assert(r@ =~= Seq::<AccountModel>::empty());
        r
    }

    /// The number of rows.
    pub fn len(&self) -> (r: usize)
        ensures
            r == self@.len(),
    {
        self.rows.len()
    }

    /// The place of a row that holds `email` and is not the row `except`.
    fn email_position(&self, email: &String, except: Option<u64>) -> (r: Option<usize>)
        ensures
            r is Some <==> email_held(self@, email@, except),
            r matches Some(k) ==> k < self@.len() && self@[k as int].email == email@ && except
                != Some(self@[k as int].id),
    {
        let mut k: usize = 0;
        while k < self.rows.len()
            invariant
                k <= self.rows.len(),
                self@.len() == self.rows.len(),
                forall|i: int|
                    0 <= i < k ==> !((#[trigger] self@[i]).email == email@ && except != Some(
                        self@[i].id,
                    )),
            decreases self.rows.len() - k,
        {
            let row = &self.rows[k];
            assert(self@[k as int] == row@);
            let excluded = match except {
                Some(id) => row.id() == id,
                None => false,
            };
            if !excluded && row.email_is(email) {
                return Some(k);
            }
            k += 1;
        }
        None
    }

    /// The place of a row that holds `username` and is not the row `except`.
    fn username_position(&self, username: &String, except: Option<u64>) -> (r: Option<usize>)
        ensures
            r is Some <==> username_held(self@, username@, except),
            r matches Some(k) ==> k < self@.len() && self@[k as int].username == username@
                && except != Some(self@[k as int].id),
    {
        let mut k: usize = 0;
        while k < self.rows.len()
            invariant
                k <= self.rows.len(),
                self@.len() == self.rows.len(),
                forall|i: int|
                    0 <= i < k ==> !((#[trigger] self@[i]).username == username@ && except
                        != Some(self@[i].id)),
            decreases self.rows.len() - k,
        {
            let row = &self.rows[k];
            assert(self@[k as int] == row@);
            let excluded = match except {
                Some(id) => row.id() == id,
                None => false,
            };
            if !excluded && row.username_is(username) {
                return Some(k);
            }
            k += 1;
        }
        None
    }

    /// The place of the row with the given id.
    fn id_position(&self, id: u64) -> (r: Option<usize>)
        ensures
            r is Some <==> has_id(self@, id),
            r matches Some(k) ==> k < self@.len() && self@[k as int].id == id,
    {
        let mut k: usize = 0;
        while k < self.rows.len()
            invariant
                k <= self.rows.len(),
                self@.len() == self.rows.len(),
                forall|i: int| 0 <= i < k ==> (#[trigger] self@[i]).id != id,
            decreases self.rows.len() - k,
        {
            let row = &self.rows[k];
            assert(self@[k as int] == row@);
            if row.id() == id {
                return Some(k);
            }
            k += 1;
        }
        None
    }

    /// Whether some row holds `email`.
    pub fn email_taken(&self, email: &str) -> (r: bool)
        ensures
            r == email_held(self@, email@, None),
    {
        let needle = email.to_owned();
        self.email_position(&needle, None).is_some()
    }

    /// Whether some row holds `username`.
    pub fn username_taken(&self, username: &str) -> (r: bool)
        ensures
            r == username_held(self@, username@, None),
    {
        let needle = username.to_owned();
        self.username_position(&needle, None).is_some()
    }

    /// The account registered under `email`.
    pub fn find_by_email(&self, email: &str) -> (r: Option<&Account>)
        requires
            self.wf(),
        ensures
            account_of(r) == row_by_email(self@, email@),
    {
        let needle = email.to_owned();
        match self.email_position(&needle, None) {
            Some(k) => {
                let row = &self.rows[k];
                assert(self@[k as int] == row@);
                Some(row)
            },
            None => None,
        }
    }

    /// The account with the given id.
    pub fn find_by_id(&self, id: u64) -> (r: Option<&Account>)
        requires
            self.wf(),
        ensures
            account_of(r) == row_by_id(self@, id),
    {
        match self.id_position(id) {
            Some(k) => {
                let row = &self.rows[k];
                assert(self@[k as int] == row@);
                Some(row)
            },
            None => None,
        }
    }
    /// Adds a row for `new` under a fresh id, unless its email or username
    /// is taken or the ids have run out. A refused row leaves the table as
    /// it was.
    pub fn insert(&mut self, new: NewAccount) -> (r: Result<Account, StoreError>)
        requires
            old(self).wf(),
        ensures
            final(self).wf(),
            match insert_refusal(old(self)@, old(self).next_id(), new.email@, new.username@) {
                Some(e) => {
                    &&& r == Err::<Account, StoreError>(e)
                    &&& final(self)@ == old(self)@
                    &&& final(self).next_id() == old(self).next_id()
                },
                None => {
                    &&& r matches Ok(a)
                    &&& a@ == created_row(
                        old(self).next_id(),
                        new.email@,
                        new.username@,
                        new.password_hash@,
                    )
                    &&& final(self)@ == old(self)@.push(a@)
                    &&& final(self).next_id() == old(self).next_id() + 1
                },
            },
    {
        if self.email_position(&new.email, None).is_some() {
            return Err(StoreError::DuplicateEmail);
        }
        if self.username_position(&new.username, None).is_some() {
            return Err(StoreError::DuplicateUsername);
        }
        if self.next_id == u64::MAX {
            return Err(StoreError::Unavailable);
        }
        let row = Account::create(self.next_id, new);
        let copy = row.clone();
        self.rows.push(row);
        self.next_id = self.next_id + 1;
        assert(self@ =~= old(self)@.push(copy@));
        Ok(copy)
    }

    /// Applies `patch` to the row `id` in one step, unless the row is
    /// missing or a new email or username belongs to another row. A refused
    /// patch leaves the table as it was.
    pub fn update(&mut self, id: u64, patch: AccountPatch) -> (r: Result<Account, StoreError>)
        requires
            old(self).wf(),
        ensures
            final(self).wf(),
            final(self).next_id() == old(self).next_id(),
            match patch_refusal(old(self)@, id, patch@) {
                Some(e) => r == Err::<Account, StoreError>(e) && final(self)@ == old(self)@,
                None => {
                    &&& r matches Ok(a)
                    &&& row_by_id(old(self)@, id) matches Some(before)
                    &&& a@ == apply_patch(before, patch@)
                    &&& final(self)@ == patched_rows(old(self)@, id, patch@)
                },
            },
    {
        let k = match self.id_position(id) {
            Some(k) => k,
            None => {
                return Err(StoreError::MissingRow);
            },
        };
        if let Some(email) = &patch.email {
            if self.email_position(email, Some(id)).is_some() {
                return Err(StoreError::DuplicateEmail);
            }
        }
        if let Some(username) = &patch.username {
            if self.username_position(username, Some(id)).is_some() {
                return Err(StoreError::DuplicateUsername);
            }
        }
        let ghost before = self@[k as int];
        assert(self@[k as int] == self.rows@[k as int]@);
        let row = self.rows[k].patched(patch);
        let copy = row.clone();
        self.rows.set(k, row);
        assert(self@ =~= patched_rows(old(self)@, id, patch@));
        Ok(copy)
    }
}

} // verus!
