//! Token validation: is a presented token a genuine, currently valid
//! credential of the trusted identity provider, for the configured audience,
//! and who is its subject.
//!
//! The steps run in a fixed order and each one ends the validation with its
//! own failure: read the header, require a key identifier, find the key,
//! verify the signature, read the claims, require the audience, check the
//! time claims.

use jsonwebtoken::jwk::Jwk;
use jsonwebtoken::Algorithm;
use jsonwebtoken::DecodingKey;
use jsonwebtoken::Validation;
use serde_json::Value;
use vstd::prelude::*;
use vstd::string::*;

use crate::auth::claims::claims_in;
use crate::auth::claims::claims_verdict;
use crate::auth::claims::subject_text;
use crate::auth::claims::Claims;
use crate::auth::error::AuthError;
use crate::auth::keys::first_with_id;
use crate::auth::keys::SigningKey;
use crate::auth::keys::SigningKeySet;
use crate::auth::keys::SigningKeyView;
use crate::json::json_text;
use crate::json::text_member;
use crate::text::optional_text;

verus! {

#[verifier::external_type_specification]
#[verifier::external_body]
pub struct ExAlgorithm(Algorithm);

/// The signature algorithms that a token header can declare.
#[derive(Clone, Copy, Debug, PartialEq, Eq, Structural)]
pub enum SignatureAlgorithm {
    HS256,
    HS384,
    HS512,
    ES256,
    ES384,
    RS256,
    RS384,
    RS512,
    PS256,
    PS384,
    PS512,
    EdDSA,
}

/// What the validation reads in a token's header.
pub struct TokenHeader {
    pub alg: SignatureAlgorithm,
    pub kid: Option<String>,
}

pub struct TokenHeaderView {
    pub alg: SignatureAlgorithm,
    pub kid: Option<Seq<char>>,
}

impl View for TokenHeader {
    type V = TokenHeaderView;

    open spec fn view(&self) -> TokenHeaderView {
        TokenHeaderView { alg: self.alg, kid: optional_text(self.kid) }
    }
}

/// A header that was or was not read, by its view.
pub open spec fn optional_header(header: Option<TokenHeader>) -> Option<TokenHeaderView> {
    match header {
        Some(h) => Some(h@),
        None => None,
    }
}

/// The header that `jsonwebtoken::decode_header` reads from a token: none
/// where it reports an error.
pub uninterp spec fn decoded_header(token: Seq<char>) -> Option<TokenHeaderView>;

/// The claim set of a token whose signature verifies under a key with an
/// algorithm, as a JSON document: what `jsonwebtoken::decode` returns for
/// the token, the key that the key's document describes, and a validation
/// of signature and algorithm alone. None where it reports an error.
pub uninterp spec fn opened_claims(
    token: Seq<char>,
    key_document: Seq<char>,
    alg: SignatureAlgorithm,
) -> Option<Seq<char>>;

/// `jsonwebtoken::Algorithm`, variant for variant.
#[verifier::external_body]
fn algorithm_from(alg: Algorithm) -> SignatureAlgorithm {
    match alg {
        Algorithm::HS256 => SignatureAlgorithm::HS256,
        Algorithm::HS384 => SignatureAlgorithm::HS384,
        Algorithm::HS512 => SignatureAlgorithm::HS512,
        Algorithm::ES256 => SignatureAlgorithm::ES256,
        Algorithm::ES384 => SignatureAlgorithm::ES384,
        Algorithm::RS256 => SignatureAlgorithm::RS256,
        Algorithm::RS384 => SignatureAlgorithm::RS384,
        Algorithm::RS512 => SignatureAlgorithm::RS512,
        Algorithm::PS256 => SignatureAlgorithm::PS256,
        Algorithm::PS384 => SignatureAlgorithm::PS384,
        Algorithm::PS512 => SignatureAlgorithm::PS512,
        Algorithm::EdDSA => SignatureAlgorithm::EdDSA,
    }
}

/// `jsonwebtoken::Algorithm`, variant for variant.
#[verifier::external_body]
fn algorithm_into(alg: SignatureAlgorithm) -> Algorithm {
    match alg {
        SignatureAlgorithm::HS256 => Algorithm::HS256,
        SignatureAlgorithm::HS384 => Algorithm::HS384,
        SignatureAlgorithm::HS512 => Algorithm::HS512,
        SignatureAlgorithm::ES256 => Algorithm::ES256,
        SignatureAlgorithm::ES384 => Algorithm::ES384,
        SignatureAlgorithm::RS256 => Algorithm::RS256,
        SignatureAlgorithm::RS384 => Algorithm::RS384,
        SignatureAlgorithm::RS512 => Algorithm::RS512,
        SignatureAlgorithm::PS256 => Algorithm::PS256,
        SignatureAlgorithm::PS384 => Algorithm::PS384,
        SignatureAlgorithm::PS512 => Algorithm::PS512,
        SignatureAlgorithm::EdDSA => Algorithm::EdDSA,
    }
}

/// `jsonwebtoken::decode_header`: the header of a token, read without any
/// check of the signature. The result is a function of the token's text
/// alone, which the contract names.
#[verifier::external_body]
fn read_header(token: &str) -> (header: Option<TokenHeader>)
    ensures
        optional_header(header) == decoded_header(token@),
{
    match jsonwebtoken::decode_header(token) {
        Ok(header) => Some(TokenHeader { alg: algorithm_from(header.alg), kid: header.kid }),
        Err(_) => None,
    }
}

/// `jsonwebtoken::decode` to a `serde_json::Value`, with the key that
/// `DecodingKey::from_jwk` makes of the key's document and with a
/// `Validation` for `alg` whose checks of claims are all switched off; the
/// claims come back as JSON text. The result is a function of the three
/// arguments alone, which the contract names. The `requires` leaves out the
/// input on which the crate's Ed25519 verifier panics: a key document of an
/// octet key pair whose member `x` decodes to fewer than 32 bytes, with the
/// algorithm EdDSA.
#[verifier::external_body]
fn open_token(token: &str, key: &SigningKey, alg: SignatureAlgorithm) -> (claims: Option<String>)
    requires
        verifiable(key.document@, alg),
    ensures
        optional_text(claims) == opened_claims(token@, key.document@, alg),
{
    let jwk: Jwk = serde_json::from_str(&key.document).ok()?;
    let verification_key = DecodingKey::from_jwk(&jwk).ok()?;
    let mut checks = Validation::new(algorithm_into(alg));
    checks.validate_exp = false;
    checks.validate_aud = false;
    checks.required_spec_claims.clear();
    let opened = jsonwebtoken::decode::<Value>(token, &verification_key, &checks).ok()?;
    Some(opened.claims.to_string())
}

/// `jsonwebtoken::get_current_timestamp`: the system clock's seconds since
/// the epoch. It panics where the clock stands before the epoch.
#[verifier::external_body]
fn current_time() -> u64 {
    jsonwebtoken::get_current_timestamp()
}

/// Characters of unpadded base64 that hold the 32 bytes of an Ed25519 point.
pub const EDWARDS_POINT_TEXT: usize = 43;

/// Whether a signature of the algorithm `alg` can be put to the key of a
/// key document: an Ed25519 signature needs a point of full length, so
/// where the document has a text member `x`, that member must be long
/// enough to hold one.
pub open spec fn verifiable(document: Seq<char>, alg: SignatureAlgorithm) -> bool {
    alg == SignatureAlgorithm::EdDSA ==> match json_text(document, "x"@) {
        Some(point) => point.len() >= EDWARDS_POINT_TEXT,
        None => true,
    }
}

/// Steps one to three: the position in the key set of the key that the
/// header names, or the failure of the first step that fails.
pub open spec fn chosen_key(header: Option<TokenHeaderView>, keys: Seq<SigningKeyView>) -> Result<
    int,
    AuthError,
> {
    match header {
        None => Err(AuthError::Malformed),
        Some(h) => match h.kid {
            None => Err(AuthError::MissingKeyId),
            Some(kid) => match first_with_id(keys, kid) {
                None => Err(AuthError::UnknownKey),
                Some(i) => Ok(i),
            },
        },
    }
}

/// Steps four and five and the reading of the claims, for a key and the
/// algorithm that the header declares: the claims of the token, or why it
/// is refused.
pub open spec fn opened(token: Seq<char>, key: SigningKeyView, alg: SignatureAlgorithm) -> Result<
    crate::auth::claims::ClaimsView,
    AuthError,
> {
    if !verifiable(key.document, alg) {
        Err(AuthError::BadSignature)
    } else {
        match opened_claims(token, key.document, alg) {
            None => Err(AuthError::BadSignature),
            Some(document) => match claims_in(document) {
                None => Err(AuthError::Malformed),
                Some(claims) => Ok(claims),
            },
        }
    }
}

/// The validation of a token against a key set, for a required audience
/// and at a time in seconds since the epoch: the subject of the token, or
/// the failure of the first step that fails.
pub open spec fn validation(
    token: Seq<char>,
    keys: Seq<SigningKeyView>,
    audience: Seq<char>,
    now: u64,
) -> Result<Seq<char>, AuthError> {
    match chosen_key(decoded_header(token), keys) {
        Err(e) => Err(e),
        Ok(i) => match opened(token, keys[i], decoded_header(token)->0.alg) {
            Err(e) => Err(e),
            Ok(claims) => claims_verdict(claims, audience, now),
        },
    }
}

/// Steps one to three: the key that the header names.
pub fn select_key<'a>(header: &Option<TokenHeader>, keys: &'a SigningKeySet) -> (chosen: Result<
    &'a SigningKey,
    AuthError,
>)
    ensures
        match chosen {
            Ok(key) => chosen_key(optional_header(*header), keys@) matches Ok(i) && key@
                == keys@[i],
            Err(e) => chosen_key(optional_header(*header), keys@) == Err::<int, AuthError>(e),
        },
{
    match header {
        None => Err(AuthError::Malformed),
        Some(h) => match &h.kid {
            None => Err(AuthError::MissingKeyId),
            Some(kid) => match keys.find_by_key_id(kid.as_str()) {
                None => Err(AuthError::UnknownKey),
                Some(key) => Ok(key),
            },
        },
    }
}

/// Whether a signature of the algorithm `alg` can be put to the key.
pub fn is_verifiable(key: &SigningKey, alg: SignatureAlgorithm) -> (r: bool)
    ensures
        r == verifiable(key.document@, alg),
{
    match alg {
        SignatureAlgorithm::EdDSA => match text_member(key.document.as_str(), "x") {
            Some(point) => point.as_str().unicode_len() >= EDWARDS_POINT_TEXT,
            None => true,
        },
        _ => true,
    }
}

/// Validates a token as of the time `now`, in seconds since the epoch.
pub fn validate_at(token: &str, jwks: &SigningKeySet, audience: &str, now: u64) -> (r: Result<
    String,
    AuthError,
>)
    ensures
        subject_text(r) == validation(token@, jwks@, audience@, now),
{
    let header = read_header(token);
    let key = match select_key(&header, jwks) {
        Ok(key) => key,
        Err(e) => return Err(e),
    };
    let alg = match &header {
        Some(h) => h.alg,
        None => return Err(AuthError::Malformed),
    };
    if !is_verifiable(key, alg) {
        return Err(AuthError::BadSignature);
    }
    let document = match open_token(token, key, alg) {
        Some(document) => document,
        None => return Err(AuthError::BadSignature),
    };
    match Claims::read(document.as_str()) {
        Some(claims) => claims.judge(audience, now),
        None => Err(AuthError::Malformed),
    }
}

/// Validates a token as of the system clock's time: the result is that of
/// `validate_at` for the time that the clock gave. It unwinds where the
/// clock stands before the epoch.
pub fn validate_jwt(token: &str, jwks: &SigningKeySet, audience: &str) -> (r: Result<
    String,
    AuthError,
>)
    ensures
        exists|now: u64| subject_text(r) == #[trigger] validation(token@, jwks@, audience@, now),
{
    validate_at(token, jwks, audience, current_time())
}

} // verus!
