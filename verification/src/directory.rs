//! The user-record store, modelled as an in-memory directory.
//!
//! A record moves through exactly one transition: created unverified, then
//! marked verified by the email-verification flow, which also consumes its
//! one-time verification token. The directory maintains uniqueness of ids,
//! of emails, and of verification tokens while they are present.

use vstd::prelude::*;

use crate::text::str_eq;

verus! {

/// The mathematical content of one user record.
pub ghost struct UserModel {
    pub id: int,
    pub email: Seq<char>,
    pub password: Seq<char>,
    pub created_at: int,
    pub verified: bool,
    pub verification_token: Option<Seq<char>>,
}

/// One persisted user record.
///
/// Invariant, maintained by the directory: `verified` implies that
/// `verification_token` is gone.
#[derive(Debug)]
pub struct User {
    pub id: i32,
    pub email: String,
    pub password: String,
    pub created_at: i64,
    pub verified: bool,
    pub verification_token: Option<String>,
}

impl View for User {
    type V = UserModel;

    open spec fn view(&self) -> UserModel {
        UserModel {
            id: self.id as int,
            email: self.email@,
            password: self.password@,
            created_at: self.created_at as int,
            verified: self.verified,
            verification_token: match self.verification_token {
                Some(t) => Some(t@),
                None => None,
            },
        }
    }
}

impl Clone for User {
    fn clone(&self) -> (res: Self)
        ensures
            res == *self,
    {
        User {
            id: self.id,
            email: self.email.clone(),
            password: self.password.clone(),
            created_at: self.created_at,
            verified: self.verified,
            verification_token: match &self.verification_token {
                Some(t) => Some(t.clone()),
                None => None,
            },
        }
    }
}

/// Some record in `m` has this email.
pub open spec fn has_email(m: Seq<UserModel>, email: Seq<char>) -> bool {
    exists|i: int| 0 <= i < m.len() && (#[trigger] m[i]).email == email
}

/// The index of the record with this email (unique under `model_wf`).
pub open spec fn email_index(m: Seq<UserModel>, email: Seq<char>) -> int {
    choose|i: int| 0 <= i < m.len() && (#[trigger] m[i]).email == email
}

/// Some record in `m` has this id.
pub open spec fn has_id(m: Seq<UserModel>, id: int) -> bool {
    exists|i: int| 0 <= i < m.len() && (#[trigger] m[i]).id == id
}

/// The index of the record with this id (unique under `model_wf`).
pub open spec fn id_index(m: Seq<UserModel>, id: int) -> int {
    choose|i: int| 0 <= i < m.len() && (#[trigger] m[i]).id == id
}

/// Some record in `m` still carries this verification token.
pub open spec fn has_token(m: Seq<UserModel>, token: Seq<char>) -> bool {
    exists|i: int|
        0 <= i < m.len() && (#[trigger] m[i]).verification_token == Some(token)
}

/// The index of the record carrying this token (unique under `model_wf`).
pub open spec fn token_index(m: Seq<UserModel>, token: Seq<char>) -> int {
    choose|i: int|
        0 <= i < m.len() && (#[trigger] m[i]).verification_token == Some(token)
}

/// The record as it stands after its email has been verified: the flag is
/// set and the one-time token is consumed.
pub open spec fn verified_model(u: UserModel) -> UserModel {
    UserModel { verified: true, verification_token: None, ..u }
}

/// Well-formedness of the directory contents: ids, emails and present
/// verification tokens are pairwise distinct, and a verified record holds
/// no verification token.
pub open spec fn model_wf(m: Seq<UserModel>) -> bool {
    &&& forall|i: int, j: int|
        0 <= i < m.len() && 0 <= j < m.len() && i != j ==> (#[trigger] m[i]).email != (
        #[trigger] m[j]).email
    &&& forall|i: int, j: int|
        0 <= i < m.len() && 0 <= j < m.len() && i != j ==> (#[trigger] m[i]).id != (
        #[trigger] m[j]).id
    &&& forall|i: int, j: int|
        0 <= i < m.len() && 0 <= j < m.len() && i != j && (#[trigger] m[i]).verification_token
            is Some && (#[trigger] m[j]).verification_token is Some
            ==> m[i].verification_token != m[j].verification_token
    &&& forall|i: int|
        0 <= i < m.len() && (#[trigger] m[i]).verified ==> m[i].verification_token is None
}

/// The directory refused an insert that would break a uniqueness
/// constraint or exhaust the id space.
#[derive(Clone, Copy, Debug, PartialEq, Eq, Structural)]
pub struct ConflictError;

/// An in-memory user-record store with a narrow query interface.
pub struct UserDirectory {
    users: Vec<User>,
    next_id: i32,
}

impl View for UserDirectory {
    type V = Seq<UserModel>;

    closed spec fn view(&self) -> Seq<UserModel> {
        self.users@.map_values(|u: User| u@)
    }
}

impl UserDirectory {
    /// Ids of all records lie strictly below the next id to be assigned,
    /// which is positive; hidden so callers reason through `wf` alone.
    pub closed spec fn ids_fresh(self) -> bool {
        &&& 0 < self.next_id
        &&& forall|i: int| 0 <= i < self@.len() ==> (#[trigger] self@[i]).id < self.next_id
    }

    /// The id space is used up, so no further record can be inserted.
    pub closed spec fn ids_exhausted(self) -> bool {
        self.next_id == i32::MAX
    }

    /// Validity of the directory as a whole.
    pub open spec fn wf(self) -> bool {
        &&& model_wf(self@)
        &&& self.ids_fresh()
    }

    /// An empty directory.
    pub fn new() -> (d: Self)
        ensures
            d@ =~= Seq::<UserModel>::empty(),
            d.wf(),
            !d.ids_exhausted(),
    {
        UserDirectory { users: Vec::new(), next_id: 1 }
    }

    /// True exactly when a record with this email exists.
    pub fn exists_by_email(&self, email: &str) -> (r: bool)
        ensures
            r == has_email(self@, email@),
    {
        let n = self.users.len();
        let mut i: usize = 0;
        while i < n
            invariant
                i <= n,
                n == self.users@.len(),
                forall|j: int| 0 <= j < i ==> (#[trigger] self@[j]).email != email@,
            decreases n - i,
        {
            if str_eq(self.users[i].email.as_str(), email) {
                assert(self@[i as int].email == email@);
                return true;
            }
            i += 1;
        }
        false
    }

    /// The record with this email, if one exists.
    pub fn find_by_email(&self, email: &str) -> (r: Option<User>)
        requires
            self.wf(),
        ensures
            r is Some <==> has_email(self@, email@),
            r matches Some(u) ==> u@ == self@[email_index(self@, email@)]
                && 0 <= email_index(self@, email@) < self@.len(),
    {
        let n = self.users.len();
        let mut i: usize = 0;
        while i < n
            invariant
                i <= n,
                n == self.users@.len(),
                self.wf(),
                forall|j: int| 0 <= j < i ==> (#[trigger] self@[j]).email != email@,
            decreases n - i,
        {
            if str_eq(self.users[i].email.as_str(), email) {
                assert(self@[i as int].email == email@);
                proof {
                    let k = email_index(self@, email@);
                    assert(0 <= k < self@.len() && self@[k].email == email@);
                    assert(k == i as int);
                }
                return Some(self.users[i].clone());
            }
            i += 1;
        }
        None
    }

    /// The record still carrying this verification token, if one exists.
    pub fn find_by_verification_token(&self, token: &str) -> (r: Option<User>)
        requires
            self.wf(),
        ensures
            r is Some <==> has_token(self@, token@),
            r matches Some(u) ==> u@ == self@[token_index(self@, token@)]
                && 0 <= token_index(self@, token@) < self@.len(),
    {
        let n = self.users.len();
        let mut i: usize = 0;
        while i < n
            invariant
                i <= n,
                n == self.users@.len(),
                self.wf(),
                forall|j: int|
                    0 <= j < i ==> (#[trigger] self@[j]).verification_token != Some(token@),
            decreases n - i,
        {
            let found = match &self.users[i].verification_token {
                Some(t) => str_eq(t.as_str(), token),
                None => false,
            };
            if found {
                assert(self@[i as int].verification_token == Some(token@));
                proof {
                    let k = token_index(self@, token@);
                    assert(0 <= k < self@.len() && self@[k].verification_token == Some(token@));
                    assert(k == i as int);
                }
                return Some(self.users[i].clone());
            }
            i += 1;
        }
        None
    }

    /// The record with this id, if one exists.
    pub fn find_by_id(&self, id: i32) -> (r: Option<User>)
        requires
            self.wf(),
        ensures
            r is Some <==> has_id(self@, id as int),
            r matches Some(u) ==> u@ == self@[id_index(self@, id as int)]
                && 0 <= id_index(self@, id as int) < self@.len(),
    {
        let n = self.users.len();
        let mut i: usize = 0;
        while i < n
            invariant
                i <= n,
                n == self.users@.len(),
                self.wf(),
                forall|j: int| 0 <= j < i ==> (#[trigger] self@[j]).id != id as int,
            decreases n - i,
        {
            if self.users[i].id == id {
                assert(self@[i as int].id == id as int);
                proof {
                    let k = id_index(self@, id as int);
                    assert(0 <= k < self@.len() && self@[k].id == id as int);
                    assert(k == i as int);
                }
                return Some(self.users[i].clone());
            }
            i += 1;
        }
        None
    }

    /// Inserts a new unverified record, assigning it a fresh id.
    ///
    /// Succeeds exactly when the email and the verification token are not
    /// already taken and the id space is not exhausted; on success, the
    /// new record is appended and returned.
    pub fn insert(
        &mut self,
        email: &str,
        password_hash: &str,
        created_at: i64,
        verification_token: &str,
    ) -> (r: Result<User, ConflictError>)
        requires
            old(self).wf(),
        ensures
            final(self).wf(),
            r matches Ok(u) ==> {
                &&& final(self)@ =~= old(self)@.push(u@)
                &&& u@.email == email@
                &&& u@.password == password_hash@
                &&& u@.created_at == created_at as int
                &&& !u@.verified
                &&& u@.verification_token == Some(verification_token@)
                &&& !has_id(old(self)@, u@.id)
            },
            r is Err ==> final(self)@ == old(self)@ && *final(self) == *old(self),
            r is Ok <==> !has_email(old(self)@, email@) && !has_token(
                old(self)@,
                verification_token@,
            ) && !old(self).ids_exhausted(),
    {
        if self.next_id == i32::MAX {
            return Err(ConflictError);
        }
        if self.exists_by_email(email) {
            return Err(ConflictError);
        }
        if self.token_in_use(verification_token) {
            return Err(ConflictError);
        }
        let user = User {
            id: self.next_id,
            email: email.to_owned(),
            password: password_hash.to_owned(),
            created_at,
            verified: false,
            verification_token: Some(verification_token.to_owned()),
        };
        let result = user.clone();
        self.users.push(user);
        self.next_id = self.next_id + 1;
        proof {
            assert(self@ =~= old(self)@.push(result@));
            assert forall|i: int| 0 <= i < self@.len() implies (#[trigger] self@[i]).id
                < self.next_id by {
                if i < old(self)@.len() {
                    assert(old(self)@[i].id < old(self).next_id);
                }
            }
            assert(model_wf(self@)) by {
                assert(forall|i: int|
                    0 <= i < old(self)@.len() ==> (#[trigger] old(self)@[i]).id
                        < old(self).next_id);
            }
        }
        Ok(result)
    }

    /// True exactly when some record still carries this token.
    pub fn token_in_use(&self, token: &str) -> (r: bool)
        ensures
            r == has_token(self@, token@),
    {
        let n = self.users.len();
        let mut i: usize = 0;
        while i < n
            invariant
                i <= n,
                n == self.users@.len(),
                forall|j: int|
                    0 <= j < i ==> (#[trigger] self@[j]).verification_token != Some(token@),
            decreases n - i,
        {
            let found = match &self.users[i].verification_token {
                Some(t) => str_eq(t.as_str(), token),
                None => false,
            };
            if found {
                assert(self@[i as int].verification_token == Some(token@));
                return true;
            }
            i += 1;
        }
        false
    }

    /// Marks the record with this id verified and consumes its token.
    ///
    /// Returns whether such a record existed; nothing else changes.
    pub fn mark_verified(&mut self, id: i32) -> (r: bool)
        requires
            old(self).wf(),
        ensures
            final(self).wf(),
            r == has_id(old(self)@, id as int),
            r ==> final(self)@ =~= old(self)@.update(
                id_index(old(self)@, id as int),
                verified_model(old(self)@[id_index(old(self)@, id as int)]),
            ),
            !r ==> final(self)@ == old(self)@ && *final(self) == *old(self),
    {
        let n = self.users.len();
        let mut i: usize = 0;
        while i < n
            invariant
                i <= n,
                n == self.users@.len(),
                *old(self) == *self,
                self.wf(),
                forall|j: int| 0 <= j < i ==> (#[trigger] self@[j]).id != id as int,
            decreases n - i,
        {
            if self.users[i].id == id {
                assert(self@[i as int].id == id as int);
                proof {
                    let k = id_index(self@, id as int);
                    assert(0 <= k < self@.len() && self@[k].id == id as int);
                    assert(k == i as int);
                }
                let u = &mut self.users[i];
                u.verified = true;
                u.verification_token = None;
                proof {
                    let k = i as int;
                    assert(self@ =~= old(self)@.update(k, verified_model(old(self)@[k])));
                    assert(model_wf(self@));
                    assert(self.ids_fresh()) by {
                        assert(forall|j: int|
                            0 <= j < old(self)@.len() ==> (#[trigger] old(self)@[j]).id
                                < old(self).next_id);
                    }
                }
                return true;
            }
            i += 1;
        }
        false
    }

    /// The number of records held.
    pub fn len(&self) -> (r: usize)
        ensures
            r == self@.len(),
    {
        self.users.len()
    }
}

/// Under well-formedness no two records share an email, so a directory
/// holds at most one record for any given address.
pub proof fn lemma_email_unique(m: Seq<UserModel>, i: int, j: int)
    requires
        model_wf(m),
        0 <= i < m.len(),
        0 <= j < m.len(),
        m[i].email == m[j].email,
    ensures
        i == j,
{
}

} // verus!
