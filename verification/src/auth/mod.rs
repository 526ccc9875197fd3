//! Identity establishment: key set, token validation, identity resolution
//! and the request entrance that composes them.

use vstd::prelude::*;

pub mod claims;
pub mod error;
pub mod entrance;
pub mod identity;
pub mod keys;
pub mod laws;
pub mod resolver;
pub mod token;

verus! {

/// The authenticated identity of one request: the internal identifier of
/// the matched or newly created identity.
pub struct User {
    pub id: String,
}

impl User {
    pub fn new(id: String) -> (user: User)
        ensures
            user.id == id,
    {
        User { id }
    }
}

} // verus!
