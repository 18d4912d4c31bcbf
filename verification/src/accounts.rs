//! User accounts: the account records and the list bookkeeping around them.
//! Everything that needs the outside world — a fresh UUID, the account's
//! directory on disk, image resizing for profile pictures, the clock — is
//! handed in by the host as plain values; the list logic is verified here.

use vstd::prelude::*;

verus! {

use crate::strutil;

/// One user account.
#[derive(Debug)]
pub struct Account {
    pub id: String,
    pub name: String,
    pub data_dir: String,
    pub is_active: bool,
    pub profile_picture: Option<String>,
    pub last_sync: Option<String>,
    pub session_token: Option<String>,
}

/// A copy of an optional string, character for character.
fn clone_opt_string(s: &Option<String>) -> (r: Option<String>)
    ensures
        r == *s,
{
    match s {
        None => None,
        Some(v) => Some(v.clone()),
    }
}

impl Account {
    /// A field-for-field copy of the account.
    pub fn duplicate(&self) -> (r: Account)
        ensures
            r == *self,
    {
        Account {
            id: self.id.clone(),
            name: self.name.clone(),
            data_dir: self.data_dir.clone(),
            is_active: self.is_active,
            profile_picture: clone_opt_string(&self.profile_picture),
            last_sync: clone_opt_string(&self.last_sync),
            session_token: clone_opt_string(&self.session_token),
        }
    }
}

/// The index of the first account carrying `id`, if any.
pub open spec fn found_at(accounts: Seq<Account>, id: Seq<char>, i: int) -> bool {
    &&& 0 <= i < accounts.len()
    &&& accounts[i].id@ == id
    &&& forall|j: int| 0 <= j < i ==> (#[trigger] accounts[j]).id@ != id
}

/// Owns the account list.
pub struct AccountManager {
    pub accounts: Vec<Account>,
}

impl AccountManager {
    /// A manager with no accounts; the host seeds it from its store.
    pub fn new() -> (r: Self)
        ensures
            r.accounts@.len() == 0,
    {
        AccountManager { accounts: Vec::new() }
    }

    /// Adds an account under a host-supplied fresh id and data directory;
    /// the first account ever added becomes the active one.
    pub fn add_account(&mut self, id: String, name: String, data_dir: String) -> (r: Account)
        ensures
            r.id == id,
            r.name == name,
            r.data_dir == data_dir,
            r.is_active == (old(self).accounts@.len() == 0),
            r.profile_picture is None,
            r.last_sync is None,
            r.session_token is None,
            final(self).accounts@ == old(self).accounts@.push(r),
    {
        let account = Account {
            id,
            name,
            data_dir,
            is_active: self.accounts.len() == 0,
            profile_picture: None,
            last_sync: None,
            session_token: None,
        };
        let copy = account.duplicate();
        self.accounts.push(account);
        copy
    }

    /// Removes the first account carrying `id`, handing back its data
    /// directory so the host can delete it; `None` when no account matches,
    /// in which case nothing changes.
    pub fn remove_account(&mut self, id: &str) -> (r: Option<String>)
        ensures
            r is None ==> *final(self) == *old(self) && (forall|i: int|
                0 <= i < old(self).accounts@.len() ==> (#[trigger] old(
                    self,
                ).accounts@[i]).id@ != id@),
            r matches Some(dir) ==> exists|i: int|
                #[trigger] found_at(old(self).accounts@, id@, i) && dir@ == old(
                    self,
                ).accounts@[i].data_dir@ && final(self).accounts@ == old(self).accounts@.remove(i),
    {
        let mut i: usize = 0;
        while i < self.accounts.len()
            invariant
                *self == *old(self),
                i <= self.accounts@.len(),
                forall|j: int| 0 <= j < i ==> (#[trigger] self.accounts@[j]).id@ != id@,
            decreases self.accounts@.len() - i,
        {
            if strutil::str_eq(self.accounts[i].id.as_str(), id) {
                let removed = self.accounts.remove(i);
                proof {
                    assert(found_at(old(self).accounts@, id@, i as int));
                }
                return Some(removed.data_dir);
            }
            i = i + 1;
        }
        None
    }

    /// Makes exactly the accounts carrying `id` active (the others inactive),
    /// leaving every other field alone.
    pub fn switch_account(&mut self, id: &str)
        ensures
            final(self).accounts@.len() == old(self).accounts@.len(),
            forall|i: int|
                0 <= i < old(self).accounts@.len() ==> #[trigger] final(self).accounts@[i] == (
                Account {
                    is_active: old(self).accounts@[i].id@ == id@,
                    ..old(self).accounts@[i]
                }),
    {
        let mut i: usize = 0;
        while i < self.accounts.len()
            invariant
                self.accounts@.len() == old(self).accounts@.len(),
                i <= self.accounts@.len(),
                forall|j: int|
                    i <= j < old(self).accounts@.len() ==> #[trigger] self.accounts@[j] == old(
                        self,
                    ).accounts@[j],
                forall|j: int|
                    0 <= j < i ==> #[trigger] self.accounts@[j] == (Account {
                        is_active: old(self).accounts@[j].id@ == id@,
                        ..old(self).accounts@[j]
                    }),
            decreases self.accounts@.len() - i,
        {
            let active = strutil::str_eq(self.accounts[i].id.as_str(), id);
            let updated = Account { is_active: active, ..self.accounts[i].duplicate() };
            self.accounts[i] = updated;
            i = i + 1;
        }
    }

    /// All accounts, in order.
    pub fn list_accounts(&self) -> (r: Vec<Account>)
        ensures
            r@ == self.accounts@,
    {
        let mut out: Vec<Account> = Vec::new();
        let mut i: usize = 0;
        while i < self.accounts.len()
            invariant
                i <= self.accounts@.len(),
                out@ == self.accounts@.subrange(0, i as int),
            decreases self.accounts@.len() - i,
        {
            out.push(self.accounts[i].duplicate());
            proof {
                assert(out@ =~= self.accounts@.subrange(0, i + 1));
            }
            i = i + 1;
        }
        proof {
            assert(out@ =~= self.accounts@);
        }
        out
    }

    /// Sets the profile picture of the first account carrying `id` to a path
    /// the host prepared; reports whether such an account exists.
    pub fn set_profile_picture(&mut self, id: &str, picture_path: String) -> (r: bool)
        ensures
            !r ==> *final(self) == *old(self),
            r ==> exists|i: int|
                #[trigger] found_at(old(self).accounts@, id@, i) && final(self).accounts@ == old(
                    self,
                ).accounts@.update(i, (Account {
                    profile_picture: Some(picture_path),
                    ..old(self).accounts@[i]
                })),
    {
        let mut i: usize = 0;
        while i < self.accounts.len()
            invariant
                *self == *old(self),
                i <= self.accounts@.len(),
                forall|j: int| 0 <= j < i ==> (#[trigger] self.accounts@[j]).id@ != id@,
            decreases self.accounts@.len() - i,
        {
            if strutil::str_eq(self.accounts[i].id.as_str(), id) {
                let updated = Account {
                    profile_picture: Some(picture_path),
                    ..self.accounts[i].duplicate()
                };
                proof {
                    assert(found_at(old(self).accounts@, id@, i as int));
                }
                self.accounts[i] = updated;
                return true;
            }
            i = i + 1;
        }
        false
    }

    /// Sets the session token of the first account carrying `id`; reports
    /// whether such an account exists.
    pub fn set_session_token(&mut self, id: &str, token: String) -> (r: bool)
        ensures
            !r ==> *final(self) == *old(self),
            r ==> exists|i: int|
                #[trigger] found_at(old(self).accounts@, id@, i) && final(self).accounts@ == old(
                    self,
                ).accounts@.update(i, (Account {
                    session_token: Some(token),
                    ..old(self).accounts@[i]
                })),
    {
        let mut i: usize = 0;
        while i < self.accounts.len()
            invariant
                *self == *old(self),
                i <= self.accounts@.len(),
                forall|j: int| 0 <= j < i ==> (#[trigger] self.accounts@[j]).id@ != id@,
            decreases self.accounts@.len() - i,
        {
            if strutil::str_eq(self.accounts[i].id.as_str(), id) {
                proof {
                    assert(found_at(old(self).accounts@, id@, i as int));
                }
                let updated = Account { session_token: Some(token), ..self.accounts[i].duplicate() };
                self.accounts[i] = updated;
                return true;
            }
            i = i + 1;
        }
        false
    }

    /// The session token of the first account carrying `id`, if any.
    pub fn get_session_token(&self, id: &str) -> (r: Option<String>)
        ensures
            r is Some <==> exists|i: int|
                #[trigger] found_at(self.accounts@, id@, i) && self.accounts@[i].session_token
                    is Some,
            r matches Some(t) ==> exists|i: int|
                #[trigger] found_at(self.accounts@, id@, i) && (
                self.accounts@[i].session_token matches Some(u) && t@ == u@),
    {
        let mut i: usize = 0;
        while i < self.accounts.len()
            invariant
                i <= self.accounts@.len(),
                forall|j: int| 0 <= j < i ==> (#[trigger] self.accounts@[j]).id@ != id@,
            decreases self.accounts@.len() - i,
        {
            if strutil::str_eq(self.accounts[i].id.as_str(), id) {
                proof {
                    assert(found_at(self.accounts@, id@, i as int));
                }
                return clone_opt_string(&self.accounts[i].session_token);
            }
            i = i + 1;
        }
        None
    }

    /// Stamps the first account carrying `id` with a host-supplied sync time;
    /// reports whether such an account exists.
    pub fn update_last_sync(&mut self, id: &str, now: String) -> (r: bool)
        ensures
            !r ==> *final(self) == *old(self),
            r ==> exists|i: int|
                #[trigger] found_at(old(self).accounts@, id@, i) && final(self).accounts@ == old(
                    self,
                ).accounts@.update(i, (Account {
                    last_sync: Some(now),
                    ..old(self).accounts@[i]
                })),
    {
        let mut i: usize = 0;
        while i < self.accounts.len()
            invariant
                *self == *old(self),
                i <= self.accounts@.len(),
                forall|j: int| 0 <= j < i ==> (#[trigger] self.accounts@[j]).id@ != id@,
            decreases self.accounts@.len() - i,
        {
            if strutil::str_eq(self.accounts[i].id.as_str(), id) {
                proof {
                    assert(found_at(old(self).accounts@, id@, i as int));
                }
                let updated = Account { last_sync: Some(now), ..self.accounts[i].duplicate() };
                self.accounts[i] = updated;
                return true;
            }
            i = i + 1;
        }
        false
    }
}

} // verus!
