//! The time of day, as the backend writes it down.

use vstd::prelude::*;

verus! {

/// `chrono::Utc::now` and its `to_rfc3339`: the present time as a text.
/// Which text comes is left open. It panics where the system clock stands
/// before the epoch.
#[verifier::external_body]
pub(crate) fn now_rfc3339() -> String {
    chrono::Utc::now().to_rfc3339()
}

/// `chrono::Utc::now` and its `to_string`: the present time as a text.
/// Which text comes is left open. It panics where the system clock stands
/// before the epoch.
#[verifier::external_body]
pub(crate) fn now_text() -> String {
    chrono::Utc::now().to_string()
}

} // verus!
