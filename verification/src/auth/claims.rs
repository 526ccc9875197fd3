//! The claims of a token, and what they decide once the signature holds.

use vstd::prelude::*;

use crate::auth::error::AuthError;
use crate::json::has_member;
use crate::json::json_has;
use crate::json::json_number;
use crate::json::json_text;
use crate::json::json_texts;
use crate::json::number_member;
use crate::json::text_member;
use crate::json::texts_member;
use crate::text::lists;
use crate::text::texts;

verus! {

/// The claims that the validation reads.
pub struct Claims {
    /// The subject, as the identity provider asserts it.
    pub sub: String,
    /// The services that the token is meant for.
    pub aud: Vec<String>,
    /// Seconds since the epoch after which the token is no longer valid.
    pub exp: Option<u64>,
    /// Seconds since the epoch before which the token is not yet valid.
    pub nbf: Option<u64>,
}

pub struct ClaimsView {
    pub sub: Seq<char>,
    pub aud: Seq<Seq<char>>,
    pub exp: Option<u64>,
    pub nbf: Option<u64>,
}

impl View for Claims {
    type V = ClaimsView;

    open spec fn view(&self) -> ClaimsView {
        ClaimsView { sub: self.sub@, aud: texts(self.aud@), exp: self.exp, nbf: self.nbf }
    }
}

/// Claims that were or were not read, by their view.
pub open spec fn optional_claims(claims: Option<Claims>) -> Option<ClaimsView> {
    match claims {
        Some(c) => Some(c@),
        None => None,
    }
}

/// A time claim of a claim set: absent, or a whole number of seconds from
/// 0 to `u64::MAX`. The outer `None` is a member that is present and is no
/// such number: a text, a negative number, or a number with a fraction,
/// which is not rounded.
pub open spec fn time_claim(document: Seq<char>, name: Seq<char>) -> Option<Option<u64>> {
    if !json_has(document, name) {
        Some(None)
    } else {
        match json_number(document, name) {
            Some(seconds) => Some(Some(seconds)),
            None => None,
        }
    }
}

/// The claims that a claim set holds: a subject that is a text, an audience
/// that is a list of texts, and where they are present an expiry and a
/// not-before that are whole numbers of seconds. None for any other claim
/// set.
pub open spec fn claims_in(document: Seq<char>) -> Option<ClaimsView> {
    match (
        json_text(document, "sub"@),
        json_texts(document, "aud"@),
        time_claim(document, "exp"@),
        time_claim(document, "nbf"@),
    ) {
        (Some(sub), Some(aud), Some(exp), Some(nbf)) => Some(ClaimsView { sub, aud, exp, nbf }),
        _ => None,
    }
}

/// The token is past its expiry. At the second of its expiry it is still
/// valid.
pub open spec fn expired(claims: ClaimsView, now: u64) -> bool {
    claims.exp matches Some(exp) && exp < now
}

/// The token is not valid yet. At the second of its not-before it is
/// valid.
pub open spec fn premature(claims: ClaimsView, now: u64) -> bool {
    claims.nbf matches Some(nbf) && now < nbf
}

/// What the claims of a token decide once its signature holds: the required
/// audience must be one of the token's audiences, whole and exact; then the
/// time claims must admit the present; then the subject comes back
/// unmodified.
pub open spec fn claims_verdict(claims: ClaimsView, audience: Seq<char>, now: u64) -> Result<
    Seq<char>,
    AuthError,
> {
    if !claims.aud.contains(audience) {
        Err(AuthError::AudienceMismatch)
    } else if expired(claims, now) || premature(claims, now) {
        Err(AuthError::Expired)
    } else {
        Ok(claims.sub)
    }
}

/// The subject of a validation's result, by its characters.
pub open spec fn subject_text(result: Result<String, AuthError>) -> Result<Seq<char>, AuthError> {
    match result {
        Ok(sub) => Ok(sub@),
        Err(e) => Err(e),
    }
}

fn read_time_claim(document: &str, name: &str) -> (r: Option<Option<u64>>)
    ensures
        r == time_claim(document@, name@),
{
    if !has_member(document, name) {
        Some(None)
    } else {
        match number_member(document, name) {
            Some(seconds) => Some(Some(seconds)),
            None => None,
        }
    }
}

impl Claims {
    /// Reads the claims that a claim set holds.
    pub fn read(document: &str) -> (claims: Option<Claims>)
        ensures
            optional_claims(claims) == claims_in(document@),
    {
        let sub = match text_member(document, "sub") {
            Some(sub) => sub,
            None => return None,
        };
        let aud = match texts_member(document, "aud") {
            Some(aud) => aud,
            None => return None,
        };
        let exp = match read_time_claim(document, "exp") {
            Some(exp) => exp,
            None => return None,
        };
        let nbf = match read_time_claim(document, "nbf") {
            Some(nbf) => nbf,
            None => return None,
        };
        Some(Claims { sub, aud, exp, nbf })
    }

    /// What these claims decide for the required audience at the time
    /// `now`, in seconds since the epoch.
    pub fn judge(&self, audience: &str, now: u64) -> (r: Result<String, AuthError>)
        ensures
            subject_text(r) == claims_verdict(self@, audience@, now),
    {
        if !lists(&self.aud, audience) {
            return Err(AuthError::AudienceMismatch);
        }
        let late = match self.exp {
            Some(exp) => exp < now,
            None => false,
        };
        let early = match self.nbf {
            Some(nbf) => nbf > now,
            None => false,
        };
        if late || early {
            return Err(AuthError::Expired);
        }
        Ok(self.sub.clone())
    }
}

} // verus!
