//! The user-creation endpoint. The request body is decoded from JSON by
//! the transport layer; this module receives the decoded record (or the
//! fact that decoding failed) and decides the response. Nothing is stored:
//! the created user lives only in the response.

use vstd::prelude::*;
use crate::response::{STATUS_BAD_REQUEST, STATUS_CREATED};

verus! {

/// The identifier every created user gets: a fixed placeholder, not drawn
/// from any store.
pub const CREATED_USER_ID: u64 = 1337;

/// The decoded body of a create-user request.
pub struct CreateUser {
    pub username: String,
}

/// The record the endpoint answers with.
pub struct User {
    pub id: u64,
    pub username: String,
}

/// Builds the user record for a decoded request: the identifier is always
/// `CREATED_USER_ID`, and the username is echoed verbatim, whatever it is.
pub fn create_user(payload: CreateUser) -> (r: (u16, User))
    ensures
        r.0 == STATUS_CREATED,
        r.1.id == CREATED_USER_ID,
        r.1.username@ == payload.username@,
{
    let user = User { id: CREATED_USER_ID, username: payload.username };
    (STATUS_CREATED, user)
}

/// The whole endpoint, given the outcome of decoding the request body:
/// a decode failure is a client error and carries no user; a decoded
/// request is answered as `create_user` says.
pub fn create_user_endpoint(parsed: Option<CreateUser>) -> (r: (u16, Option<User>))
    ensures
        match parsed {
            Some(payload) => {
                &&& r.0 == STATUS_CREATED
                &&& match r.1 {
                    Some(user) => user.id == CREATED_USER_ID && user.username@
                        == payload.username@,
                    None => false,
                }
            },
            None => r.0 == STATUS_BAD_REQUEST && r.1 is None,
        },
{
    match parsed {
        Some(payload) => {
            let (status, user) = create_user(payload);
            (status, Some(user))
        },
        None => (STATUS_BAD_REQUEST, None),
    }
}

} // verus!
