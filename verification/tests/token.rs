use backend::auth::claims::Claims;
use backend::auth::error::AuthError;
use backend::auth::keys::SigningKeySet;
use backend::auth::token::is_verifiable;
use backend::auth::token::select_key;
use backend::auth::token::validate_at;
use backend::auth::token::validate_jwt;
use backend::auth::token::SignatureAlgorithm;
use backend::auth::token::TokenHeader;
use jsonwebtoken::jwk::Jwk;
use jsonwebtoken::Algorithm;
use jsonwebtoken::EncodingKey;
use jsonwebtoken::Header;
use rsa::pkcs1::EncodeRsaPrivateKey;

const NOW: u64 = 1_700_000_000;

const SHARED: &[u8] = b"shared key material of the tests";

/// One who signs tokens, and the key as the provider would publish it.
struct Signer {
    key: EncodingKey,
    document: String,
}

fn published(key: &EncodingKey, alg: Algorithm, kid: &str) -> String {
    let mut jwk = Jwk::from_encoding_key(key, alg).unwrap();
    jwk.common.key_id = Some(kid.to_string());
    serde_json::to_string(&jwk).unwrap()
}

fn rsa_signer(kid: &str) -> Signer {
    let private = rsa::RsaPrivateKey::new(&mut rsa::rand_core::OsRng, 1024).unwrap();
    let der = private.to_pkcs1_der().unwrap();
    let key = EncodingKey::from_rsa_der(der.as_bytes());
    let document = published(&key, Algorithm::RS256, kid);
    Signer { key, document }
}

fn shared_signer(kid: &str) -> Signer {
    let key = EncodingKey::from_secret(SHARED);
    let document = published(&key, Algorithm::HS256, kid);
    Signer { key, document }
}

fn key_set_text(issuer: &Signer) -> String {
    format!(
        "{{\"keys\":[{},{},{{\"kty\":\"OKP\",\"kid\":\"ed\",\"crv\":\"Ed25519\",\"x\":\"AAAA\"}}]}}",
        issuer.document,
        shared_signer("h1").document
    )
}

fn key_set(issuer: &Signer) -> SigningKeySet {
    SigningKeySet::parse(&key_set_text(issuer)).expect("a well-formed key set")
}

fn signed_as(signer: &Signer, alg: Algorithm, kid: Option<&str>, claims: &str) -> String {
    let mut header = Header::new(alg);
    header.kid = kid.map(String::from);
    let claims: serde_json::Value = serde_json::from_str(claims).unwrap();
    jsonwebtoken::encode(&header, &claims, &signer.key).unwrap()
}

fn signed(signer: &Signer, kid: Option<&str>, claims: &str) -> String {
    signed_as(signer, Algorithm::RS256, kid, claims)
}

fn base64url(bytes: &[u8]) -> String {
    let letters: Vec<char> =
        "ABCDEFGHIJKLMNOPQRSTUVWXYZabcdefghijklmnopqrstuvwxyz0123456789-_".chars().collect();
    let mut text = String::new();
    for chunk in bytes.chunks(3) {
        let a = chunk[0] as u32;
        let b = if chunk.len() > 1 { chunk[1] as u32 } else { 0 };
        let c = if chunk.len() > 2 { chunk[2] as u32 } else { 0 };
        let all = (a << 16) | (b << 8) | c;
        text.push(letters[(all >> 18) as usize & 63]);
        text.push(letters[(all >> 12) as usize & 63]);
        if chunk.len() > 1 {
            text.push(letters[(all >> 6) as usize & 63]);
        }
        if chunk.len() > 2 {
            text.push(letters[all as usize & 63]);
        }
    }
    text
}

/// A token of the three parts, with a signature of 64 zero bytes.
fn unsigned(header: &str, claims: &str) -> String {
    format!(
        "{}.{}.{}",
        base64url(header.as_bytes()),
        base64url(claims.as_bytes()),
        base64url(&[0u8; 64])
    )
}

#[test]
fn key_set_is_read_in_published_order() {
    let keys = key_set(&rsa_signer("k1"));
    assert_eq!(keys.len(), 3);
    let first = keys.find_by_key_id("k1").unwrap();
    assert_eq!(first.kid.as_deref(), Some("k1"));
    assert!(first.document.contains("\"RSA\""));
    let second = keys.find_by_key_id("h1").unwrap();
    assert!(second.document.contains("\"oct\""));
    let third = keys.find_by_key_id("ed").unwrap();
    assert!(third.document.contains("\"AAAA\""));
    assert!(keys.find_by_key_id("k").is_none());
    assert!(keys.find_by_key_id("K1").is_none());
}

#[test]
fn key_set_that_is_not_well_formed_is_refused() {
    assert!(SigningKeySet::parse("").is_none());
    assert!(SigningKeySet::parse("{}").is_none());
    assert!(SigningKeySet::parse("{\"keys\":[{\"kty\":\"unheard-of\"}]}").is_none());
    assert_eq!(SigningKeySet::parse("{\"keys\":[]}").unwrap().len(), 0);
}

#[test]
fn first_of_two_keys_with_one_identifier_is_found() {
    let first = rsa_signer("k1");
    let second = rsa_signer("k1");
    let text = format!("{{\"keys\":[{},{}]}}", first.document, second.document);
    let keys = SigningKeySet::parse(&text).unwrap();
    assert_eq!(keys.len(), 2);
    let found = keys.find_by_key_id("k1").unwrap();
    assert_eq!(found.document, first.document);
    assert_ne!(found.document, second.document);
    let claims = "{\"sub\":\"ext-123\",\"aud\":[\"app\"]}";
    let token = signed(&second, Some("k1"), claims);
    assert_eq!(validate_at(&token, &keys, "app", NOW), Err(AuthError::BadSignature));
    let token = signed(&first, Some("k1"), claims);
    assert_eq!(validate_at(&token, &keys, "app", NOW), Ok("ext-123".to_string()));
}

#[test]
fn token_of_a_registered_key_is_accepted() {
    let issuer = rsa_signer("k1");
    let token = signed(&issuer, Some("k1"), "{\"sub\":\"ext-123\",\"aud\":[\"app\"]}");
    assert_eq!(validate_at(&token, &key_set(&issuer), "app", NOW), Ok("ext-123".to_string()));
    assert_eq!(validate_jwt(&token, &key_set(&issuer), "app"), Ok("ext-123".to_string()));
}

#[test]
fn subject_comes_back_unmodified() {
    let issuer = rsa_signer("k1");
    let token = signed(&issuer, Some("k1"), "{\"sub\":\" Ext|123 \",\"aud\":[\"app\"]}");
    assert_eq!(validate_at(&token, &key_set(&issuer), "app", NOW), Ok(" Ext|123 ".to_string()));
}

#[test]
fn token_of_an_unknown_key_is_refused() {
    let issuer = rsa_signer("k1");
    let token = signed(&issuer, Some("unknown"), "{\"sub\":\"ext-123\",\"aud\":[\"app\"]}");
    assert_eq!(validate_at(&token, &key_set(&issuer), "app", NOW), Err(AuthError::UnknownKey));
}

#[test]
fn token_for_another_audience_is_refused() {
    let issuer = rsa_signer("k1");
    let token = signed(&issuer, Some("k1"), "{\"sub\":\"ext-123\",\"aud\":[\"other\"]}");
    assert_eq!(
        validate_at(&token, &key_set(&issuer), "app", NOW),
        Err(AuthError::AudienceMismatch)
    );
}

#[test]
fn audience_is_matched_whole_and_exact() {
    let issuer = rsa_signer("k1");
    let keys = key_set(&issuer);
    let token =
        signed(&issuer, Some("k1"), "{\"sub\":\"s\",\"aud\":[\"application\",\"ap\",\"App\"]}");
    assert_eq!(validate_at(&token, &keys, "app", NOW), Err(AuthError::AudienceMismatch));
    let token = signed(&issuer, Some("k1"), "{\"sub\":\"s\",\"aud\":[\"other\",\"app\"]}");
    assert_eq!(validate_at(&token, &keys, "app", NOW), Ok("s".to_string()));
    let token = signed(&issuer, Some("k1"), "{\"sub\":\"s\",\"aud\":[]}");
    assert_eq!(validate_at(&token, &keys, "app", NOW), Err(AuthError::AudienceMismatch));
}

#[test]
fn token_without_key_identifier_is_refused() {
    let issuer = rsa_signer("k1");
    let keys = key_set(&issuer);
    let token = signed(&issuer, None, "{\"sub\":\"ext-123\",\"aud\":[\"app\"]}");
    assert_eq!(validate_at(&token, &keys, "app", NOW), Err(AuthError::MissingKeyId));
    let token = unsigned("{\"alg\":\"RS256\"}", "{\"sub\":\"s\",\"aud\":[\"app\"]}");
    assert_eq!(validate_at(&token, &keys, "app", NOW), Err(AuthError::MissingKeyId));
}

#[test]
fn token_that_cannot_be_parsed_is_refused() {
    let keys = key_set(&shared_signer("k1"));
    assert_eq!(validate_at("", &keys, "app", NOW), Err(AuthError::Malformed));
    assert_eq!(validate_at("abc", &keys, "app", NOW), Err(AuthError::Malformed));
    assert_eq!(validate_at("a.b.c", &keys, "app", NOW), Err(AuthError::Malformed));
    assert_eq!(validate_at("a.b.c.d", &keys, "app", NOW), Err(AuthError::Malformed));
    let token = unsigned("{\"alg\":\"none\",\"kid\":\"k1\"}", "{\"sub\":\"s\",\"aud\":[\"app\"]}");
    assert_eq!(validate_at(&token, &keys, "app", NOW), Err(AuthError::Malformed));
}

#[test]
fn token_signed_with_another_key_is_refused() {
    let issuer = rsa_signer("k1");
    let other = rsa_signer("k1");
    let token = signed(&other, Some("k1"), "{\"sub\":\"ext-123\",\"aud\":[\"app\"]}");
    assert_eq!(validate_at(&token, &key_set(&issuer), "app", NOW), Err(AuthError::BadSignature));
}

#[test]
fn token_whose_claims_were_changed_is_refused() {
    let issuer = rsa_signer("k1");
    let token = signed(&issuer, Some("k1"), "{\"sub\":\"ext-123\",\"aud\":[\"app\"]}");
    let other = signed(&issuer, Some("k1"), "{\"sub\":\"ext-124\",\"aud\":[\"app\"]}");
    let parts: Vec<&str> = token.split('.').collect();
    let others: Vec<&str> = other.split('.').collect();
    let forged = format!("{}.{}.{}", parts[0], others[1], parts[2]);
    assert_eq!(validate_at(&forged, &key_set(&issuer), "app", NOW), Err(AuthError::BadSignature));
}

#[test]
fn algorithm_that_does_not_fit_the_key_is_refused() {
    let issuer = rsa_signer("k1");
    let claims = "{\"sub\":\"ext-123\",\"aud\":[\"app\"]}";
    let token = signed_as(&shared_signer("k1"), Algorithm::HS256, Some("k1"), claims);
    assert_eq!(validate_at(&token, &key_set(&issuer), "app", NOW), Err(AuthError::BadSignature));
}

#[test]
fn token_of_a_shared_secret_is_accepted() {
    let issuer = shared_signer("h1");
    let token =
        signed_as(&issuer, Algorithm::HS256, Some("h1"), "{\"sub\":\"ext-9\",\"aud\":[\"app\"]}");
    let keys = key_set(&shared_signer("k1"));
    assert_eq!(validate_at(&token, &keys, "app", NOW), Ok("ext-9".to_string()));
}

#[test]
fn short_edwards_point_is_refused_without_a_call() {
    let keys = key_set(&shared_signer("k1"));
    let token = unsigned("{\"alg\":\"EdDSA\",\"kid\":\"ed\"}", "{\"sub\":\"s\",\"aud\":[\"app\"]}");
    assert_eq!(validate_at(&token, &keys, "app", NOW), Err(AuthError::BadSignature));
    let short = keys.find_by_key_id("ed").unwrap();
    assert!(!is_verifiable(short, SignatureAlgorithm::EdDSA));
    assert!(is_verifiable(short, SignatureAlgorithm::RS256));
    assert!(is_verifiable(keys.find_by_key_id("k1").unwrap(), SignatureAlgorithm::EdDSA));
}

#[test]
fn full_edwards_point_is_put_to_the_verifier() {
    let point = "A".repeat(43);
    let text = format!(
        "{{\"keys\":[{{\"kty\":\"OKP\",\"kid\":\"ed\",\"crv\":\"Ed25519\",\"x\":\"{}\"}}]}}",
        point
    );
    let keys = SigningKeySet::parse(&text).unwrap();
    assert!(is_verifiable(keys.find_by_key_id("ed").unwrap(), SignatureAlgorithm::EdDSA));
    let token = unsigned("{\"alg\":\"EdDSA\",\"kid\":\"ed\"}", "{\"sub\":\"s\",\"aud\":[\"app\"]}");
    assert_eq!(validate_at(&token, &keys, "app", NOW), Err(AuthError::BadSignature));
}

#[test]
fn expiry_is_checked_to_the_second() {
    let issuer = rsa_signer("k1");
    let claims = format!("{{\"sub\":\"s\",\"aud\":[\"app\"],\"exp\":{}}}", NOW);
    let token = signed(&issuer, Some("k1"), &claims);
    let keys = key_set(&issuer);
    assert_eq!(validate_at(&token, &keys, "app", 0), Ok("s".to_string()));
    assert_eq!(validate_at(&token, &keys, "app", NOW - 1), Ok("s".to_string()));
    assert_eq!(validate_at(&token, &keys, "app", NOW), Ok("s".to_string()));
    assert_eq!(validate_at(&token, &keys, "app", NOW + 1), Err(AuthError::Expired));
    assert_eq!(validate_at(&token, &keys, "app", NOW + 60), Err(AuthError::Expired));
    assert_eq!(validate_at(&token, &keys, "app", u64::MAX), Err(AuthError::Expired));
    assert_eq!(validate_jwt(&token, &keys, "app"), Err(AuthError::Expired));
}

#[test]
fn not_before_is_checked_to_the_second() {
    let issuer = rsa_signer("k1");
    let claims = format!("{{\"sub\":\"s\",\"aud\":[\"app\"],\"nbf\":{}}}", NOW);
    let token = signed(&issuer, Some("k1"), &claims);
    let keys = key_set(&issuer);
    assert_eq!(validate_at(&token, &keys, "app", u64::MAX), Ok("s".to_string()));
    assert_eq!(validate_at(&token, &keys, "app", NOW + 1), Ok("s".to_string()));
    assert_eq!(validate_at(&token, &keys, "app", NOW), Ok("s".to_string()));
    assert_eq!(validate_at(&token, &keys, "app", NOW - 1), Err(AuthError::Expired));
    assert_eq!(validate_at(&token, &keys, "app", NOW - 60), Err(AuthError::Expired));
    assert_eq!(validate_at(&token, &keys, "app", 0), Err(AuthError::Expired));
}

#[test]
fn audience_is_required_before_the_time_claims() {
    let issuer = rsa_signer("k1");
    let claims = format!("{{\"sub\":\"s\",\"aud\":[\"other\"],\"exp\":{}}}", NOW);
    let token = signed(&issuer, Some("k1"), &claims);
    assert_eq!(
        validate_at(&token, &key_set(&issuer), "app", NOW + 1000),
        Err(AuthError::AudienceMismatch)
    );
}

#[test]
fn claims_of_another_shape_are_refused() {
    let issuer = rsa_signer("k1");
    let keys = key_set(&issuer);
    for claims in [
        "{\"aud\":[\"app\"]}",
        "{\"sub\":7,\"aud\":[\"app\"]}",
        "{\"sub\":\"s\"}",
        "{\"sub\":\"s\",\"aud\":\"app\"}",
        "{\"sub\":\"s\",\"aud\":[\"app\",7]}",
        "{\"sub\":\"s\",\"aud\":[\"app\"],\"exp\":\"soon\"}",
        "{\"sub\":\"s\",\"aud\":[\"app\"],\"exp\":-1}",
        "{\"sub\":\"s\",\"aud\":[\"app\"],\"nbf\":1.5}",
    ] {
        let token = signed(&issuer, Some("k1"), claims);
        assert_eq!(validate_at(&token, &keys, "app", NOW), Err(AuthError::Malformed));
    }
}

#[test]
fn claims_are_read_from_a_claim_set() {
    let claims =
        Claims::read("{\"sub\":\"s\",\"aud\":[\"a\",\"b\"],\"exp\":5,\"iss\":\"x\"}").unwrap();
    assert_eq!(claims.sub, "s");
    assert_eq!(claims.aud, vec!["a".to_string(), "b".to_string()]);
    assert_eq!(claims.exp, Some(5));
    assert_eq!(claims.nbf, None);
    assert!(Claims::read("[]").is_none());
    assert!(Claims::read("not json").is_none());
}

#[test]
fn claims_decide_in_the_order_of_the_steps() {
    let claims = Claims {
        sub: "s".to_string(),
        aud: vec!["app".to_string()],
        exp: Some(100),
        nbf: Some(50),
    };
    assert_eq!(claims.judge("app", 50), Ok("s".to_string()));
    assert_eq!(claims.judge("app", 100), Ok("s".to_string()));
    assert_eq!(claims.judge("app", 101), Err(AuthError::Expired));
    assert_eq!(claims.judge("app", 49), Err(AuthError::Expired));
    assert_eq!(claims.judge("app", 0), Err(AuthError::Expired));
    assert_eq!(claims.judge("other", 100), Err(AuthError::AudienceMismatch));
    assert_eq!(claims.judge("other", 101), Err(AuthError::AudienceMismatch));
    let late =
        Claims { sub: "s".to_string(), aud: vec!["app".to_string()], exp: None, nbf: Some(200) };
    assert_eq!(late.judge("app", 199), Err(AuthError::Expired));
    assert_eq!(late.judge("app", 200), Ok("s".to_string()));
    let open = Claims { sub: "s".to_string(), aud: vec!["app".to_string()], exp: None, nbf: None };
    assert_eq!(open.judge("app", 0), Ok("s".to_string()));
    assert_eq!(open.judge("app", u64::MAX), Ok("s".to_string()));
}

#[test]
fn key_is_selected_by_the_header() {
    let keys = key_set(&shared_signer("k1"));
    assert!(matches!(select_key(&None, &keys), Err(AuthError::Malformed)));
    let header = Some(TokenHeader { alg: SignatureAlgorithm::RS256, kid: None });
    assert!(matches!(select_key(&header, &keys), Err(AuthError::MissingKeyId)));
    let header = Some(TokenHeader { alg: SignatureAlgorithm::RS256, kid: Some("zz".to_string()) });
    assert!(matches!(select_key(&header, &keys), Err(AuthError::UnknownKey)));
    let header = Some(TokenHeader { alg: SignatureAlgorithm::RS256, kid: Some("h1".to_string()) });
    assert_eq!(select_key(&header, &keys).unwrap().kid.as_deref(), Some("h1"));
}
