//! New identifiers for the rows that the backend creates.

use vstd::prelude::*;

verus! {

/// The length of a new identifier.
pub const IDENTIFIER_LENGTH: usize = 36;

/// `uuid::Uuid::new_v4` and its `to_string`: a random identifier in the
/// hyphenated form, which is 36 characters long. Which identifier comes is
/// left open. It panics where the system's random source fails.
#[verifier::external_body]
pub(crate) fn fresh_identifier() -> (id: String)
    ensures
        id@.len() == IDENTIFIER_LENGTH,
{
    uuid::Uuid::new_v4().to_string()
}

} // verus!
