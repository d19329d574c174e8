use vstd::prelude::*;

use crate::errors::SpotitubeError;
use crate::responses::UserDto;
use crate::user_id::UserId;
use vstd::string::StringExecFns;

verus! {

/// A durable user record: the unique identifier, the unique username and the
/// encoded password hash. All three are immutable once created; no update or
/// delete flow exists.
pub struct UserEntity {
    pub id: UserId,
    pub username: String,
    pub password: String,
}

impl UserEntity {
    /// Turns a record into its public view, pairing it with a freshly issued
    /// token. The password hash never leaves the store boundary.
    pub fn into_dto(self, token: String) -> (r: UserDto)
        ensures
            r.id == self.id,
            r.username == self.username,
            r.token == token,
    {
        UserDto { id: self.id, username: self.username, token }
    }
}

impl Clone for UserEntity {
    fn clone(&self) -> (r: Self)
        ensures
            r == *self,
    {
        UserEntity {
            id: self.id,
            username: self.username.clone(),
            password: self.password.clone(),
        }
    }
}

/// Some record in the sequence carries this username.
pub open spec fn contains_username(s: Seq<UserEntity>, name: Seq<char>) -> bool {
    exists|i: int| 0 <= i < s.len() && s[i].username@ == name
}

/// Some record in the sequence carries this identifier.
pub open spec fn contains_id(s: Seq<UserEntity>, id: UserId) -> bool {
    exists|i: int| 0 <= i < s.len() && s[i].id == id
}

/// The user store: durable lookup and insert of user records, keyed by
/// username and by identifier. The store is the one place that enforces
/// uniqueness, closing the check-then-insert race of the service layer.
pub struct UserStore {
    users: Vec<UserEntity>,
}

impl View for UserStore {
    type V = Seq<UserEntity>;

    closed spec fn view(&self) -> Seq<UserEntity> {
        self.users@
    }
}

impl UserStore {
    /// Every username and every identifier appears at most once.
    pub open spec fn wf(&self) -> bool {
        forall|i: int, j: int|
            0 <= i < j < self@.len() ==> self@[i].username@ != self@[j].username@ && self@[i].id
                != self@[j].id
    }

    pub fn new() -> (r: Self)
        ensures
            r@ =~= Seq::<UserEntity>::empty(),
            r.wf(),
    {
        UserStore { users: Vec::new() }
    }

    /// Looks a user up by username; absence is not an error. Returns a record
    /// of the store carrying exactly the queried username, if there is one.
    #[verifier::loop_isolation(false)]
    pub fn get_user_by_username(&self, username: &String) -> (r: Option<UserEntity>)
        ensures
            r is Some <==> contains_username(self@, username@),
            r matches Some(u) ==> u.username@ == username@ && exists|i: int|
                0 <= i < self@.len() && self@[i] == u,
    {
        let mut i: usize = 0;
        while i < self.users.len()
            invariant
                i <= self.users.len(),
                forall|k: int| 0 <= k < i ==> self@[k].username@ != username@,
            decreases self.users.len() - i,
        {
            if self.users[i].username.eq(username) {
                return Some(self.users[i].clone());
            }
            i = i + 1;
        }
        None
    }

    /// Looks a user up by identifier; absence is not an error.
    #[verifier::loop_isolation(false)]
    pub fn get_user_by_id(&self, user_id: UserId) -> (r: Option<UserEntity>)
        ensures
            r is Some <==> contains_id(self@, user_id),
            r matches Some(u) ==> u.id == user_id && exists|i: int|
                0 <= i < self@.len() && self@[i] == u,
    {
        let mut i: usize = 0;
        while i < self.users.len()
            invariant
                i <= self.users.len(),
                forall|k: int| 0 <= k < i ==> self@[k].id != user_id,
            decreases self.users.len() - i,
        {
            if self.users[i].id.value == user_id.value {
                return Some(self.users[i].clone());
            }
            i = i + 1;
        }
        None
    }

    /// Inserts a new record built from the given username, encoded password
    /// hash and identifier, and returns it. Rejects a taken username with
    /// Conflict and a colliding identifier with an internal failure, leaving
    /// the store unchanged; so uniqueness is enforced at the storage layer
    /// even when two racing callers both passed a lookup.
    pub fn create_user(&mut self, username: &String, hashed_password: &String, id: UserId) -> (r:
        Result<UserEntity, SpotitubeError>)
        requires
            old(self).wf(),
        ensures
            final(self).wf(),
            contains_username(old(self)@, username@) ==> (r matches Err(e) && e matches
                SpotitubeError::Conflict(m) && m@ == "username is taken"@),
            !contains_username(old(self)@, username@) && contains_id(old(self)@, id) ==> (r matches
                Err(e) && e is InternalServerError),
            !contains_username(old(self)@, username@) && !contains_id(old(self)@, id) ==> r is Ok,
            r is Err ==> final(self)@ =~= old(self)@,
            r matches Ok(u) ==> u.id == id && u.username@ == username@ && u.password@
                == hashed_password@ && final(self)@ =~= old(self)@.push(u),
    {
        if let Some(_) = self.get_user_by_username(username) {
            return Err(SpotitubeError::Conflict(String::from_str("username is taken")));
        }
        if let Some(_) = self.get_user_by_id(id) {
            return Err(SpotitubeError::InternalServerError);
        }
        let user = UserEntity {
            id,
            username: username.clone(),
            password: hashed_password.clone(),
        };
        let result = user.clone();
        let ghost prev = self@;
        self.users.push(user);
        proof {
            assert forall|i: int, j: int| 0 <= i < j < self@.len() implies self@[i].username@
                != self@[j].username@ && self@[i].id != self@[j].id by {
                if j < prev.len() {
                    assert(prev[i].username@ != prev[j].username@ && prev[i].id != prev[j].id);
                } else {
                    assert(self@[j].username@ == username@ && self@[j].id == id);
                    assert(self@[i] == prev[i]);
                    assert(!(0 <= i < prev.len() && prev[i].username@ == username@));
                    assert(!(0 <= i < prev.len() && prev[i].id == id));
                }
            }
        }
        Ok(result)
    }
}

} // verus!
