use vstd::prelude::*;

use crate::user_id::UserId;

verus! {

/// The public, client-facing view of a successful auth operation: the
/// account's identifier and username together with a freshly issued bearer
/// token. Constructed anew on every successful register, login or fetch.
#[derive(Debug)]
pub struct UserDto {
    pub id: UserId,
    pub username: String,
    pub token: String,
}

/// The response body of a successful auth operation: the user view, wrapped
/// as the transport layer serialises it.
pub struct UserAuthResponse {
    pub user: UserDto,
}

impl UserAuthResponse {
    pub fn new(id: UserId, username: String, token: String) -> (r: Self)
        ensures
            r.user.id == id,
            r.user.username == username,
            r.user.token == token,
    {
        Self { user: UserDto { id, username, token } }
    }
}

} // verus!
