use vstd::prelude::*;
use vstd::string::StringExecFns;

use crate::argon_security_service::{ArgonSecurityService, hash_of, verify_of};
use crate::errors::SpotitubeError;
use crate::jwt_service::{JwtService, extracted_claims_of, token_of};
use crate::repository::{UserEntity, UserStore, contains_id, contains_username};
use crate::requests::{LoginUserDto, RegisterUserDto};
use crate::responses::UserDto;
use crate::user_id::{UserId, random_user_id};

verus! {

/// The auth orchestrator: the register, login and fetch-by-id use cases,
/// composed from the user store, the credential hasher and the token issuer,
/// injected at construction.
pub struct SpotitubeUsersService {
    pub repository: UserStore,
    pub security_service: ArgonSecurityService,
    pub token_service: JwtService,
}

impl SpotitubeUsersService {
    pub open spec fn wf(&self) -> bool {
        self.repository.wf() && self.security_service.wf()
    }

    pub fn new(
        repository: UserStore,
        security_service: ArgonSecurityService,
        token_service: JwtService,
    ) -> (r: Self)
        ensures
            r.repository == repository,
            r.security_service == security_service,
            r.token_service == token_service,
    {
        Self { repository, security_service, token_service }
    }

    /// Registers a new user under a caller-supplied identifier: exactly when
    /// the username is free and the identifier fresh, the store grows by one
    /// record holding the hash of the password, and the caller receives the
    /// new identity with a token bound to it. A taken username fails with
    /// Conflict, a colliding identifier with an internal failure, and in
    /// every failure the store is unchanged.
    pub fn register_user_with_id(&mut self, request: RegisterUserDto, id: UserId) -> (r: Result<
        UserDto,
        SpotitubeError,
    >)
        requires
            old(self).wf(),
            request.username is Some,
            request.password is Some,
            request.password->0@.len() <= 0x3FFF_FFFF,
        ensures
            final(self).wf(),
            final(self).security_service == old(self).security_service,
            final(self).token_service == old(self).token_service,
            ({
                let name = request.username->0@;
                let pwd = request.password->0@;
                &&& (r is Ok <==> !contains_username(old(self).repository@, name) && !contains_id(
                    old(self).repository@,
                    id,
                ))
                &&& (contains_username(old(self).repository@, name) ==> (r matches Err(e)
                    && e matches SpotitubeError::Conflict(m) && m@ == "username is taken"@))
                &&& (!contains_username(old(self).repository@, name) && contains_id(
                    old(self).repository@,
                    id,
                ) ==> (r matches Err(e) && e is InternalServerError))
                &&& (r is Err ==> final(self).repository@ =~= old(self).repository@)
                &&& (r matches Ok(u) ==> {
                    let stored = final(self).repository@.last();
                    &&& u.id == id
                    &&& u.username@ == name
                    &&& u.token@ == token_of(
                        id.value,
                        name,
                        old(self).token_service.config.token_secret@,
                    )
                    &&& extracted_claims_of(
                        u.token@,
                        old(self).token_service.config.token_secret@,
                    ) == Some((id.value, name))
                    &&& final(self).repository@ =~= old(self).repository@.push(stored)
                    &&& stored.id == id
                    &&& stored.username@ == name
                    &&& stored.password@ == hash_of(
                        pwd,
                        old(self).security_service.config.argon_salt@,
                    )
                    &&& verify_of(stored.password@, pwd) == Some(true)
                })
            }),
    {
        let username = request.username.unwrap();
        let password = request.password.unwrap();

        if let Some(_existing_user) = self.repository.get_user_by_username(&username) {
            return Err(SpotitubeError::Conflict(String::from_str("username is taken")));
        }

        let hashed_password = match self.security_service.hash_password(password.as_str()) {
            Ok(h) => h,
            Err(e) => {
                return Err(e);
            },
        };
        let created_user = match self.repository.create_user(&username, &hashed_password, id) {
            Ok(u) => u,
            Err(e) => {
                return Err(e);
            },
        };

        let token = match self.token_service.new_token(
            created_user.id,
            created_user.username.as_str(),
        ) {
            Ok(t) => t,
            Err(e) => {
                return Err(e);
            },
        };

        Ok(created_user.into_dto(token))
    }

    /// Registers a new user: as register_user_with_id, with the identifier
    /// drawn freshly at random. Nothing is assumed of the draw, so success is
    /// owed exactly when the username is free and the drawn identifier
    /// happens to be fresh; the only failure a free username can see is the
    /// internal one for a colliding draw, and on an empty store every draw is
    /// fresh, so registration there is owed success.
    pub fn register_user(&mut self, request: RegisterUserDto) -> (r: Result<
        UserDto,
        SpotitubeError,
    >)
        requires
            old(self).wf(),
            request.username is Some,
            request.password is Some,
            request.password->0@.len() <= 0x3FFF_FFFF,
        ensures
            final(self).wf(),
            final(self).security_service == old(self).security_service,
            final(self).token_service == old(self).token_service,
            ({
                let name = request.username->0@;
                let pwd = request.password->0@;
                &&& (contains_username(old(self).repository@, name) ==> (r matches Err(e)
                    && e matches SpotitubeError::Conflict(m) && m@ == "username is taken"@))
                &&& (!contains_username(old(self).repository@, name) && r is Err ==> r->Err_0
                    is InternalServerError)
                &&& (old(self).repository@.len() == 0 ==> r is Ok)
                &&& (r is Err ==> final(self).repository@ =~= old(self).repository@)
                &&& (r matches Ok(u) ==> {
                    let stored = final(self).repository@.last();
                    &&& !contains_username(old(self).repository@, name)
                    &&& !contains_id(old(self).repository@, u.id)
                    &&& u.username@ == name
                    &&& u.token@ == token_of(
                        u.id.value,
                        name,
                        old(self).token_service.config.token_secret@,
                    )
                    &&& extracted_claims_of(
                        u.token@,
                        old(self).token_service.config.token_secret@,
                    ) == Some((u.id.value, name))
                    &&& final(self).repository@ =~= old(self).repository@.push(stored)
                    &&& stored.id == u.id
                    &&& stored.username@ == name
                    &&& stored.password@ == hash_of(
                        pwd,
                        old(self).security_service.config.argon_salt@,
                    )
                    &&& verify_of(stored.password@, pwd) == Some(true)
                })
            }),
    {
        let id = random_user_id();
        self.register_user_with_id(request, id)
    }

    /// Authenticates a returning user: exactly when the username exists and
    /// the password verifies against the stored hash, a fresh token over the
    /// stored identity is returned. An unknown username fails with NotFound,
    /// a non-matching password with InvalidPassword, and a corrupted stored
    /// hash with the internal hashing failure.
    pub fn login_user(&self, request: LoginUserDto) -> (r: Result<UserDto, SpotitubeError>)
        requires
            self.wf(),
            request.username is Some,
            request.password is Some,
        ensures
            ({
                let name = request.username->0@;
                let pwd = request.password->0@;
                &&& ((r matches Err(e) && e matches SpotitubeError::NotFound(m) && m@
                    == "username does not exist"@) <==> !contains_username(self.repository@, name))
                &&& forall|i: int|
                    #![trigger self.repository@[i]]
                    0 <= i < self.repository@.len() && self.repository@[i].username@ == name ==> {
                        let rec = self.repository@[i];
                        &&& (verify_of(rec.password@, pwd) == Some(true) ==> (r matches Ok(u)
                            && u.id == rec.id && u.username@ == name && u.token@ == token_of(
                            rec.id.value,
                            name,
                            self.token_service.config.token_secret@,
                        ) && extracted_claims_of(u.token@, self.token_service.config.token_secret@)
                            == Some((rec.id.value, name))))
                        &&& (verify_of(rec.password@, pwd) == Some(false) ==> (r matches Err(e)
                            && e is InvalidPassword))
                        &&& (verify_of(rec.password@, pwd) is None ==> (r matches Err(e) && e
                            is HashingFailure))
                    }
            }),
    {
        let username = request.username.unwrap();
        let attempted_password = request.password.unwrap();

        let user = match self.repository.get_user_by_username(&username) {
            Some(u) => u,
            None => {
                return Err(SpotitubeError::NotFound(String::from_str("username does not exist")));
            },
        };
        proof {
            assert forall|i: int|
                0 <= i < self.repository@.len() && self.repository@[i].username@ == username@
                implies self.repository@[i] == user by {
                let j = choose|j: int| 0 <= j < self.repository@.len() && self.repository@[j] == user;
                if i < j {
                    assert(self.repository@[i].username@ != self.repository@[j].username@);
                } else if j < i {
                    assert(self.repository@[j].username@ != self.repository@[i].username@);
                }
            }
        }

        let is_valid_password = match self.security_service.verify_password(
            user.password.as_str(),
            attempted_password.as_str(),
        ) {
            Ok(b) => b,
            Err(e) => {
                return Err(e);
            },
        };

        if is_valid_password {
            let token = match self.token_service.new_token(user.id, user.username.as_str()) {
                Ok(t) => t,
                Err(e) => {
                    return Err(e);
                },
            };
            Ok(user.into_dto(token))
        } else {
            Err(SpotitubeError::InvalidPassword)
        }
    }

    /// Fetches a user by identifier and returns the identity under a freshly
    /// issued token: exactly when the identifier is in the store, and with
    /// the stored username. The store is read only, so repeated calls for an
    /// existing identifier keep succeeding with the same identity.
    pub fn get_user(&self, user_id: UserId) -> (r: Result<UserDto, SpotitubeError>)
        requires
            self.wf(),
        ensures
            r is Ok <==> contains_id(self.repository@, user_id),
            r matches Err(e) ==> e matches SpotitubeError::NotFound(m) && m@
                == "user does not exist"@,
            forall|i: int|
                #![trigger self.repository@[i]]
                0 <= i < self.repository@.len() && self.repository@[i].id == user_id ==> (r matches
                    Ok(u) && u.id == user_id && u.username@ == self.repository@[i].username@
                && u.token@ == token_of(
                    user_id.value,
                    self.repository@[i].username@,
                    self.token_service.config.token_secret@,
                ) && extracted_claims_of(u.token@, self.token_service.config.token_secret@)
                    == Some((user_id.value, self.repository@[i].username@))),
    {
        let user = match self.repository.get_user_by_id(user_id) {
            Some(u) => u,
            None => {
                return Err(SpotitubeError::NotFound(String::from_str("user does not exist")));
            },
        };
        proof {
            assert forall|i: int|
                0 <= i < self.repository@.len() && self.repository@[i].id == user_id
                implies self.repository@[i] == user by {
                let j = choose|j: int| 0 <= j < self.repository@.len() && self.repository@[j] == user;
                if i < j {
                    assert(self.repository@[i].id != self.repository@[j].id);
                } else if j < i {
                    assert(self.repository@[j].id != self.repository@[i].id);
                }
            }
        }

        let token = match self.token_service.new_token(user.id, user.username.as_str()) {
            Ok(t) => t,
            Err(e) => {
                return Err(e);
            },
        };

        Ok(user.into_dto(token))
    }
}

/// Fetching by identifier is idempotent: get_user reads the store through a
/// shared borrow, so the store is the same across calls, and any two results
/// that meet get_user's contract against the same store and identifier carry
/// the same identifier and username. Only the token is minted per call.
pub proof fn lemma_get_user_idempotent(s: Seq<UserEntity>, id: UserId, u1: UserDto, u2: UserDto)
    requires
        contains_id(s, id),
        forall|i: int|
            #![trigger s[i]]
            0 <= i < s.len() && s[i].id == id ==> u1.id == id && u1.username@ == s[i].username@,
        forall|i: int|
            #![trigger s[i]]
            0 <= i < s.len() && s[i].id == id ==> u2.id == id && u2.username@ == s[i].username@,
    ensures
        u1.id == u2.id,
        u1.username@ == u2.username@,
{
    let i = choose|i: int| 0 <= i < s.len() && s[i].id == id;
    assert(u1.username@ == s[i].username@);
    assert(u2.username@ == s[i].username@);
}

/// After a successful registration of a previously free username, the store
/// holds that username, and every record carrying it verifies against the
/// registered password. A login with the same credentials must therefore
/// succeed under login_user's contract, and a second registration of the
/// same username must fail with Conflict under register_user's.
pub proof fn lemma_register_then_login(
    pre: Seq<UserEntity>,
    post: Seq<UserEntity>,
    stored: UserEntity,
    name: Seq<char>,
    pwd: Seq<char>,
)
    requires
        !contains_username(pre, name),
        post =~= pre.push(stored),
        stored.username@ == name,
        verify_of(stored.password@, pwd) == Some(true),
    ensures
        contains_username(post, name),
        forall|i: int|
            #![trigger post[i]]
            0 <= i < post.len() && post[i].username@ == name ==> verify_of(post[i].password@, pwd)
                == Some(true),
{
    assert(post[post.len() - 1] == stored);
    assert forall|i: int|
        0 <= i < post.len() && post[i].username@ == name implies verify_of(post[i].password@, pwd)
        == Some(true) by {
        if i < post.len() - 1 {
            assert(post[i] == pre[i]);
            assert(!(0 <= i < pre.len() && pre[i].username@ == name));
        }
    }
}

} // verus!
