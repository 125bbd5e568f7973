//! Credential store: persistence for user records and their roles.
//!
//! Invariants: emails and user ids are unique, every stored user owns
//! exactly one role, every role belongs to a stored user, and a
//! system-provisioned user always carries a password hash.  Creation of
//! a user and allocation of its role happen in one call, so both rows
//! appear or neither does.

use vstd::prelude::*;
use crate::errors::StoreError;
use crate::trusted::fresh_uuid;
use crate::types::RoleType;
use crate::types::UserSource;
use crate::types::str_eq;
use crate::user::User;
use crate::user::UserResponse;

verus! {

/// Role row: the one role tag owned by a user.
#[derive(Debug)]
pub struct Role {
    pub id: String,
    pub user_id: String,
    pub role: RoleType,
}

impl Clone for Role {
    fn clone(&self) -> (r: Self)
        ensures
            r == *self,
    {
        Role { id: self.id.clone(), user_id: self.user_id.clone(), role: self.role }
    }
}

/// Whether some stored user already carries this email.
pub open spec fn email_taken(users: Seq<User>, email: Seq<char>) -> bool {
    exists|i: int| 0 <= i < users.len() && #[trigger] users[i].email@ == email
}

/// Whether some stored user already carries this id.
pub open spec fn id_taken(users: Seq<User>, id: Seq<char>) -> bool {
    exists|i: int| 0 <= i < users.len() && #[trigger] users[i].id@ == id
}

/// Whether some stored role belongs to this user id.
pub open spec fn role_assigned(roles: Seq<Role>, user_id: Seq<char>) -> bool {
    exists|i: int| 0 <= i < roles.len() && #[trigger] roles[i].user_id@ == user_id
}

/// Store for user records and per-user roles.
#[derive(Debug)]
pub struct CredentialStore {
    pub users: Vec<User>,
    pub roles: Vec<Role>,
}

impl CredentialStore {
    /// Well-formedness: unique emails and ids, exactly one role per
    /// stored user, no orphan roles, and a hash present on every
    /// system-provisioned user.
    pub open spec fn wf(&self) -> bool {
        &&& forall|i: int, j: int|
            0 <= i < j < self.users@.len() ==> #[trigger] self.users@[i].email@ != #[trigger] self.users@[j].email@
        &&& forall|i: int, j: int|
            0 <= i < j < self.users@.len() ==> #[trigger] self.users@[i].id@ != #[trigger] self.users@[j].id@
        &&& forall|i: int, j: int|
            0 <= i < j < self.roles@.len() ==> #[trigger] self.roles@[i].user_id@ != #[trigger] self.roles@[j].user_id@
        &&& forall|i: int|
            0 <= i < self.users@.len() ==> role_assigned(self.roles@, #[trigger] self.users@[i].id@)
        &&& forall|i: int|
            0 <= i < self.roles@.len() ==> id_taken(self.users@, #[trigger] self.roles@[i].user_id@)
        &&& forall|i: int|
            0 <= i < self.users@.len() ==> (#[trigger] self.users@[i].source == UserSource::SYSTEM
                ==> self.users@[i].password is Some)
    }

    /// An empty store.
    pub fn new() -> (r: CredentialStore)
        ensures
            r.wf(),
            r.users@.len() == 0,
            r.roles@.len() == 0,
    {
        CredentialStore { users: Vec::new(), roles: Vec::new() }
    }

    /// Exact-match lookup of a user by email.  Succeeds if and only if
    /// a stored user carries the email, and returns that user.
    pub fn get_user_by_email(&self, email: &str) -> (r: Result<User, StoreError>)
        ensures
            r matches Ok(u) ==> id_taken(self.users@, u.id@) && u.email@ == email@
                && exists|i: int| 0 <= i < self.users@.len() && #[trigger] self.users@[i] == u,
            r matches Err(e) ==> e == StoreError::NotFound && !email_taken(self.users@, email@),
            r is Ok <==> email_taken(self.users@, email@),
    {
        let n = self.users.len();
        let mut i: usize = 0;
        while i < n
            invariant
                n == self.users@.len(),
                forall|k: int| 0 <= k < i ==> #[trigger] self.users@[k].email@ != email@,
            decreases n - i,
        {
            if str_eq(self.users[i].email.as_str(), email) {
                let found = self.users[i].clone();
                assert(id_taken(self.users@, found.id@));
                return Ok(found);
            }
            i += 1;
        }
        Err(StoreError::NotFound)
    }

    /// Exact-match lookup of the role owned by a user id.  Succeeds if
    /// and only if a stored role belongs to the id.
    pub fn get_token_by_user_id(&self, user_id: &str) -> (r: Result<Role, StoreError>)
        ensures
            r matches Ok(rl) ==> rl.user_id@ == user_id@
                && exists|i: int| 0 <= i < self.roles@.len() && #[trigger] self.roles@[i] == rl,
            r matches Err(e) ==> e == StoreError::NotFound && !role_assigned(self.roles@, user_id@),
            r is Ok <==> role_assigned(self.roles@, user_id@),
    {
        let n = self.roles.len();
        let mut i: usize = 0;
        while i < n
            invariant
                n == self.roles@.len(),
                forall|k: int| 0 <= k < i ==> #[trigger] self.roles@[k].user_id@ != user_id@,
            decreases n - i,
        {
            if str_eq(self.roles[i].user_id.as_str(), user_id) {
                return Ok(self.roles[i].clone());
            }
            i += 1;
        }
        Err(StoreError::NotFound)
    }

    /// Persists a new user and, in the same call, a fresh `USER` role
    /// owned by it: both rows appear, or on any failure neither does.
    /// Fails with `DuplicateEmail` when the email is already stored, and
    /// with `Storage` when the id collides with a stored user.
    pub fn save_new_user_and_allocate_a_role(&mut self, user: &User) -> (r: Result<
        UserResponse,
        StoreError,
    >)
        requires
            old(self).wf(),
            user.source == UserSource::SYSTEM ==> user.password is Some,
        ensures
            final(self).wf(),
            r matches Err(e) ==> *final(self) == *old(self) && (e == StoreError::DuplicateEmail
                || e == StoreError::Storage),
            r == Err::<UserResponse, StoreError>(StoreError::DuplicateEmail) <==> email_taken(
                old(self).users@,
                user.email@,
            ),
            r == Err::<UserResponse, StoreError>(StoreError::Storage) <==> (!email_taken(
                old(self).users@,
                user.email@,
            ) && id_taken(old(self).users@, user.id@)),
            r matches Ok(resp) ==> {
                &&& final(self).users@ == old(self).users@.push(*user)
                &&& final(self).roles@.len() == old(self).roles@.len() + 1
                &&& final(self).roles@.drop_last() == old(self).roles@
                &&& final(self).roles@.last().user_id@ == user.id@
                &&& final(self).roles@.last().role == RoleType::USER
                &&& resp.id@ == user.id@
                &&& resp.name@ == user.name@
                &&& resp.email@ == user.email@
                &&& resp.role == RoleType::USER
            },
    {
        if email_taken_exec(&self.users, user.email.as_str()) {
            return Err(StoreError::DuplicateEmail);
        }
        if id_taken_exec(&self.users, user.id.as_str()) {
            return Err(StoreError::Storage);
        }
        let ghost old_users = self.users@;
        let ghost old_roles = self.roles@;
        let role = Role { id: fresh_uuid(), user_id: user.id.clone(), role: RoleType::USER };
        let ghost new_role = role;
        self.users.push(user.clone());
        self.roles.push(role);
        proof {
            let us = self.users@;
            let rs = self.roles@;
            assert(us == old_users.push(*user));
            assert(rs == old_roles.push(new_role));
            assert(rs.drop_last() =~= old_roles);
            assert forall|i: int, j: int| 0 <= i < j < us.len() implies us[i].email@
                != us[j].email@ by {
                assert(us[i] == old_users[i]);
                if j < us.len() - 1 {
                    assert(us[j] == old_users[j]);
                } else {
                    assert(us[j] == *user);
                    assert(!email_taken(old_users, user.email@));
                }
            }
            assert forall|i: int, j: int| 0 <= i < j < us.len() implies us[i].id@ != us[j].id@ by {
                assert(us[i] == old_users[i]);
                if j < us.len() - 1 {
                    assert(us[j] == old_users[j]);
                } else {
                    assert(us[j] == *user);
                    assert(!id_taken(old_users, user.id@));
                }
            }
            assert forall|i: int, j: int| 0 <= i < j < rs.len() implies rs[i].user_id@
                != rs[j].user_id@ by {
                assert(rs[i] == old_roles[i]);
                if j < rs.len() - 1 {
                    assert(rs[j] == old_roles[j]);
                } else {
                    assert(rs[j] == new_role);
                    assert(id_taken(old_users, old_roles[i].user_id@));
                    assert(!id_taken(old_users, user.id@));
                }
            }
            assert forall|i: int| 0 <= i < us.len() implies role_assigned(
                rs,
                #[trigger] us[i].id@,
            ) by {
                if i < us.len() - 1 {
                    assert(us[i] == old_users[i]);
                    assert(role_assigned(old_roles, old_users[i].id@));
                    let k = choose|k: int|
                        0 <= k < old_roles.len() && #[trigger] old_roles[k].user_id@
                            == old_users[i].id@;
                    assert(rs[k] == old_roles[k]);
                    assert(rs[k].user_id@ == us[i].id@);
                } else {
                    assert(rs[rs.len() - 1].user_id@ == us[i].id@);
                }
            }
            assert forall|i: int| 0 <= i < rs.len() implies id_taken(
                us,
                #[trigger] rs[i].user_id@,
            ) by {
                if i < rs.len() - 1 {
                    assert(rs[i] == old_roles[i]);
                    assert(id_taken(old_users, old_roles[i].user_id@));
                    let k = choose|k: int|
                        0 <= k < old_users.len() && #[trigger] old_users[k].id@
                            == old_roles[i].user_id@;
                    assert(us[k] == old_users[k]);
                    assert(us[k].id@ == rs[i].user_id@);
                } else {
                    assert(us[us.len() - 1].id@ == rs[i].user_id@);
                }
            }
            assert forall|i: int|
                0 <= i < us.len() && #[trigger] us[i].source == UserSource::SYSTEM implies us[
                    i
                ].password is Some by {
                if i < us.len() - 1 {
                    assert(us[i] == old_users[i]);
                }
            }
        }
        Ok(UserResponse {
            id: user.id.clone(),
            name: user.name.clone(),
            email: user.email.clone(),
            role: RoleType::USER,
        })
    }
}

/// Whether some stored user carries the email, decided by scan.
fn email_taken_exec(users: &Vec<User>, email: &str) -> (r: bool)
    ensures
        r == email_taken(users@, email@),
{
    let n = users.len();
    let mut i: usize = 0;
    while i < n
        invariant
            n == users@.len(),
            forall|k: int| 0 <= k < i ==> #[trigger] users@[k].email@ != email@,
        decreases n - i,
    {
        if str_eq(users[i].email.as_str(), email) {
            return true;
        }
        i += 1;
    }
    false
}

/// Whether some stored user carries the id, decided by scan.
fn id_taken_exec(users: &Vec<User>, id: &str) -> (r: bool)
    ensures
        r == id_taken(users@, id@),
{
    let n = users.len();
    let mut i: usize = 0;
    while i < n
        invariant
            n == users@.len(),
            forall|k: int| 0 <= k < i ==> #[trigger] users@[k].id@ != id@,
        decreases n - i,
    {
        if str_eq(users[i].id.as_str(), id) {
            return true;
        }
        i += 1;
    }
    false
}

impl User {
    /// The public projection of this user: id, name, email, and the role
    /// resolved from the store.  Succeeds if and only if the store holds
    /// a role for this user's id.  The password hash is never part of it.
    pub fn to_response(&self, store: &CredentialStore) -> (r: Result<UserResponse, StoreError>)
        ensures
            r matches Ok(resp) ==> {
                &&& resp.id@ == self.id@
                &&& resp.name@ == self.name@
                &&& resp.email@ == self.email@
                &&& exists|i: int|
                    0 <= i < store.roles@.len() && #[trigger] store.roles@[i].user_id@ == self.id@
                        && store.roles@[i].role == resp.role
            },
            r is Ok <==> role_assigned(store.roles@, self.id@),
            r matches Err(e) ==> e == StoreError::NotFound,
    {
        let role = match store.get_token_by_user_id(self.id.as_str()) {
            Ok(rl) => rl,
            Err(_) => {
                return Err(StoreError::NotFound);
            },
        };
        Ok(UserResponse {
            id: self.id.clone(),
            name: self.name.clone(),
            email: self.email.clone(),
            role: role.role,
        })
    }
}

} // verus!
