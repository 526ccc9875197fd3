//! The authentication entrance: the entry point of each request. It takes the
//! bearer credential out of the authorization header, has the token
//! validated and the subject resolved, and turns every failure into a
//! rejection at the request boundary.
//!
//! The entrance holds the decisions and leaves the storage to its caller, as
//! the resolver does. A request that is refused before the resolution has
//! asked nothing of the storage.

use vstd::prelude::*;
use vstd::string::*;

use crate::auth::claims::subject_text;
use crate::auth::error::AuthError;
use crate::auth::error::StorageError;
use crate::auth::keys::SigningKeySet;
use crate::auth::keys::SigningKeyView;
use crate::auth::resolver::Resolver;
use crate::auth::resolver::ResolverView;
use crate::auth::resolver::Step;
use crate::auth::resolver::StepView;
use crate::auth::resolver::StorageAnswer;
use crate::auth::token::validate_at;
use crate::auth::token::validate_jwt;
use crate::auth::token::validation;
use crate::auth::User;
use crate::identifier::IDENTIFIER_LENGTH;
use crate::text::strip_prefix;

verus! {

/// The status of a request that carries no valid credential.
pub const UNAUTHORIZED: u16 = 401;

/// The status of a request that failed on the server's side.
pub const INTERNAL_SERVER_ERROR: u16 = 500;

/// Why a request is turned away at the entrance.
#[derive(Clone, Copy, Debug, PartialEq, Eq, Structural)]
pub enum Rejection {
    /// The request carries no bearer credential.
    MissingCredential,
    /// The token was refused.
    InvalidToken(AuthError),
    /// The identity could not be resolved. The cause is for the server's
    /// log and never for the caller.
    ResolutionFailed(StorageError),
}

/// Where a request stands at the entrance.
pub enum Entrance {
    /// The request is turned away.
    Rejected(Rejection),
    /// The token is valid, and the resolution of its subject is under way.
    Resolving(Resolver),
    /// The request is authenticated.
    Admitted(User),
}

pub enum EntranceView {
    Rejected(Rejection),
    Resolving(ResolverView),
    Admitted { id: Seq<char> },
}

impl View for Entrance {
    type V = EntranceView;

    open spec fn view(&self) -> EntranceView {
        match self {
            Entrance::Rejected(rejection) => EntranceView::Rejected(*rejection),
            Entrance::Resolving(resolver) => EntranceView::Resolving(resolver@),
            Entrance::Admitted(user) => EntranceView::Admitted { id: user.id@ },
        }
    }
}

/// An authorization header that is or is not there, by its characters.
pub open spec fn optional_header_text(authorization: Option<&str>) -> Option<Seq<char>> {
    match authorization {
        Some(text) => Some(text@),
        None => None,
    }
}

/// The bearer credential of an authorization header: what follows the
/// word `Bearer` and one space.
pub open spec fn bearer(authorization: Option<Seq<char>>) -> Option<Seq<char>> {
    match authorization {
        Some(text) => if "Bearer "@.is_prefix_of(text) {
            Some(text.skip("Bearer "@.len() as int))
        } else {
            None
        },
        None => None,
    }
}

/// Where a request stands once its token has been validated: turned away
/// as unauthenticated, or at the first lookup of its subject.
pub open spec fn admission(
    authorization: Option<Seq<char>>,
    keys: Seq<SigningKeyView>,
    audience: Seq<char>,
    now: u64,
) -> EntranceView {
    match bearer(authorization) {
        None => EntranceView::Rejected(Rejection::MissingCredential),
        Some(token) => match validation(token, keys, audience, now) {
            Err(e) => EntranceView::Rejected(Rejection::InvalidToken(e)),
            Ok(sub) => EntranceView::Resolving(ResolverView::Looking { claim: sub }),
        },
    }
}

/// Where a request stands after a step of its resolution.
pub open spec fn settled(step: StepView) -> EntranceView {
    match step {
        StepView::Next(resolver) => EntranceView::Resolving(resolver),
        StepView::Done(Ok(id)) => EntranceView::Admitted { id },
        StepView::Done(Err(e)) => EntranceView::Rejected(Rejection::ResolutionFailed(e)),
    }
}

impl AuthError {
    /// The description of the failure class that the caller is given.
    pub open spec fn description(self) -> Seq<char> {
        match self {
            AuthError::Malformed => "InvalidToken"@,
            AuthError::MissingKeyId => "No kid found in token header"@,
            AuthError::UnknownKey => "No matching JWK found for kid"@,
            AuthError::BadSignature => "InvalidSignature"@,
            AuthError::AudienceMismatch => "InvalidAudience"@,
            AuthError::Expired => "ExpiredSignature"@,
        }
    }

    /// The description of the failure class that the caller is given. It
    /// names the class and nothing of the keys or the token.
    pub fn describe(&self) -> (text: String)
        ensures
            text@ == self.description(),
    {
        match self {
            AuthError::Malformed => String::from_str("InvalidToken"),
            AuthError::MissingKeyId => String::from_str("No kid found in token header"),
            AuthError::UnknownKey => String::from_str("No matching JWK found for kid"),
            AuthError::BadSignature => String::from_str("InvalidSignature"),
            AuthError::AudienceMismatch => String::from_str("InvalidAudience"),
            AuthError::Expired => String::from_str("ExpiredSignature"),
        }
    }
}

impl Rejection {
    /// The status of the response: unauthenticated for a missing or
    /// refused credential, a server error where the resolution failed.
    pub open spec fn spec_status(self) -> u16 {
        match self {
            Rejection::MissingCredential => UNAUTHORIZED,
            Rejection::InvalidToken(_) => UNAUTHORIZED,
            Rejection::ResolutionFailed(_) => INTERNAL_SERVER_ERROR,
        }
    }

    /// The body of the response. Where the resolution failed it is the
    /// same for every cause.
    pub open spec fn spec_message(self) -> Seq<char> {
        match self {
            Rejection::MissingCredential => "Missing or invalid Authorization header"@,
            Rejection::InvalidToken(e) => e.description(),
            Rejection::ResolutionFailed(_) => "Some error happened"@,
        }
    }

    /// The status of the response.
    pub fn status(&self) -> (status: u16)
        ensures
            status == self.spec_status(),
    {
        match self {
            Rejection::MissingCredential => UNAUTHORIZED,
            Rejection::InvalidToken(_) => UNAUTHORIZED,
            Rejection::ResolutionFailed(_) => INTERNAL_SERVER_ERROR,
        }
    }

    /// The body of the response.
    pub fn message(&self) -> (text: String)
        ensures
            text@ == self.spec_message(),
    {
        match self {
            Rejection::MissingCredential => String::from_str(
                "Missing or invalid Authorization header",
            ),
            Rejection::InvalidToken(e) => e.describe(),
            Rejection::ResolutionFailed(_) => String::from_str("Some error happened"),
        }
    }
}

/// The bearer credential of an authorization header.
pub fn bearer_token<'a>(authorization: Option<&'a str>) -> (token: Option<&'a str>)
    ensures
        optional_header_text(token) == bearer(optional_header_text(authorization)),
{
    match authorization {
        Some(text) => strip_prefix(text, "Bearer "),
        None => None,
    }
}

/// Where a request stands once the outcome of its token's validation is
/// known.
pub fn receive(validated: Result<String, AuthError>) -> (entrance: Entrance)
    ensures
        entrance@ == match subject_text(validated) {
            Err(e) => EntranceView::Rejected(Rejection::InvalidToken(e)),
            Ok(sub) => EntranceView::Resolving(ResolverView::Looking { claim: sub }),
        },
{
    match validated {
        Err(e) => Entrance::Rejected(Rejection::InvalidToken(e)),
        Ok(sub) => Entrance::Resolving(Resolver::start(sub)),
    }
}

/// Where a request stands after a step of its resolution.
pub fn settle(step: Step) -> (entrance: Entrance)
    ensures
        entrance@ == settled(step@),
{
    match step {
        Step::Next(resolver) => Entrance::Resolving(resolver),
        Step::Done(Ok(id)) => Entrance::Admitted(User::new(id)),
        Step::Done(Err(e)) => Entrance::Rejected(Rejection::ResolutionFailed(e)),
    }
}

/// Opens the entrance for a request as of the time `now`, in seconds since the
/// epoch: takes the bearer credential out of the authorization header and
/// validates the token.
pub fn authenticate_at(
    authorization: Option<&str>,
    jwks: &SigningKeySet,
    audience: &str,
    now: u64,
) -> (entrance: Entrance)
    ensures
        entrance@ == admission(optional_header_text(authorization), jwks@, audience@, now),
{
    match bearer_token(authorization) {
        None => Entrance::Rejected(Rejection::MissingCredential),
        Some(token) => receive(validate_at(token, jwks, audience, now)),
    }
}

/// Opens the entrance for a request as of the system clock's time: the
/// result is that of `authenticate_at` for the time that the clock gave.
/// It unwinds where the clock stands before the epoch.
pub fn authenticate(authorization: Option<&str>, jwks: &SigningKeySet, audience: &str) -> (entrance:
    Entrance)
    ensures
        exists|now: u64|
            entrance@ == #[trigger] admission(
                optional_header_text(authorization),
                jwks@,
                audience@,
                now,
            ),
{
    match bearer_token(authorization) {
        None => {
            assert(Entrance::Rejected(Rejection::MissingCredential)@ == admission(
                optional_header_text(authorization),
                jwks@,
                audience@,
                0,
            ));
            Entrance::Rejected(Rejection::MissingCredential)
        },
        Some(token) => {
            let validated = validate_jwt(token, jwks, audience);
            let entrance = receive(validated);
            proof {
                let now = choose|now: u64|
                    subject_text(validated) == #[trigger] validation(
                        token@,
                        jwks@,
                        audience@,
                        now,
                    );
                assert(entrance@ == admission(
                    optional_header_text(authorization),
                    jwks@,
                    audience@,
                    now,
                ));
            }
            entrance
        },
    }
}

/// Takes the storage's answer to the pending request of a resolution. The
/// request is admitted or turned away after three answers at most.
/// Where the first lookup found no row, the identifier that is offered is
/// a new random one of `IDENTIFIER_LENGTH` characters.
pub fn resume(resolver: Resolver, answer: StorageAnswer) -> (entrance: Entrance)
    ensures
        exists|candidate: Seq<char>|
            {
                &&& resolver@.provisions(answer@) ==> candidate.len() == IDENTIFIER_LENGTH
                &&& entrance@ == settled(#[trigger] resolver@.step(answer@, candidate))
            },
        entrance matches Entrance::Resolving(next) ==> next@.remaining() < resolver@.remaining(),
{
    settle(resolver.answer(answer))
}

} // verus!
