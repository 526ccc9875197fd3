//! Why a presented token is refused, and why resolution fails.

use vstd::prelude::*;

verus! {

/// The failure classes of token validation.
#[derive(Clone, Copy, Debug, PartialEq, Eq, Structural)]
pub enum AuthError {
    /// The token cannot be parsed.
    Malformed,
    /// The token's header names no key.
    MissingKeyId,
    /// The key that the header names is not in the key set.
    UnknownKey,
    /// The signature does not verify under the named key.
    BadSignature,
    /// The required audience is not among the token's audiences.
    AudienceMismatch,
    /// The token's own time claims place it outside the present.
    Expired,
}

/// Why an identity could not be resolved.
#[derive(Clone, Copy, Debug, PartialEq, Eq, Structural)]
pub enum StorageError {
    /// The storage reported a failure.
    Unavailable,
    /// An insert lost against a concurrent one, and the winner's row could
    /// not be read back.
    LostRow,
    /// The storage answered with something that the pending request cannot
    /// produce.
    UnexpectedAnswer,
}

} // verus!
