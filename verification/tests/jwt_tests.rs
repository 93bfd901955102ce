use rsa::pkcs1::EncodeRsaPrivateKey;
use rsa::pkcs8::EncodePublicKey;
use auth_service::jwt::{decode_token, decode_token_claims, generate_token, signature_checks, token_checks, try_generate_token, IAuth, SigningAlgorithm, TokenSigningError, TOKEN_LIFETIME_SECS};
use auth_service::users::UserWithRole;

/// A fresh RSA key pair in PEM: the private key (PKCS#1) and the public key
/// (SubjectPublicKeyInfo).
fn key_pair() -> (String, String) {
    let private = rsa::RsaPrivateKey::new(&mut rsa::rand_core::OsRng, 1024).unwrap();
    let private_pem = private.to_pkcs1_pem(rsa::pkcs8::LineEnding::LF).unwrap().to_string();
    let public_pem = private.to_public_key().to_public_key_pem(rsa::pkcs8::LineEnding::LF).unwrap();
    (private_pem, public_pem)
}

fn user() -> UserWithRole {
    UserWithRole {
        id: 7,
        email: "jo@example.com".to_string(),
        password: "$2b$04$x".to_string(),
        role_name: "user".to_string(),
    }
}

fn claims_json(c: &IAuth) -> String {
    format!(
        "{{\"iat\":{},\"id\":{},\"email\":{},\"role\":{},\"exp\":{}}}",
        c.iat,
        c.id,
        serde_json::to_string(&c.email).unwrap(),
        serde_json::to_string(&c.role).unwrap(),
        c.exp
    )
}

#[test]
fn claims_for_user() {
    let c = IAuth::for_user(&user(), 1_000, 990);
    assert_eq!(c.iat, 1_000);
    assert_eq!(c.exp, 990 + 900);
    assert_eq!(c.id, 7);
    assert_eq!(c.email, "jo@example.com");
    assert_eq!(c.role, "user");
    assert_eq!(TOKEN_LIFETIME_SECS, 900);
}

#[test]
fn negative_times_wrap_like_casts() {
    let c = IAuth::for_user(&user(), -1, -1000);
    assert_eq!(c.iat, u64::MAX);
    assert_eq!(c.exp, (-100i64) as u64);
}

#[test]
fn issued_claims_expire_after_fifteen_minutes() {
    let c = IAuth::issue(&user());
    assert!(c.exp >= c.iat + 900 - 2 && c.exp <= c.iat + 900);
    let now = std::time::SystemTime::now().duration_since(std::time::UNIX_EPOCH).unwrap().as_secs();
    assert!(c.iat <= now + 1 && c.iat + 5 >= now);
}

#[test]
fn token_checks_are_rs256_with_expiry() {
    let t = token_checks();
    assert_eq!(t.algorithm, SigningAlgorithm::RS256);
    assert!(t.validate_exp);
    assert!(!t.validate_aud);
    assert_eq!(t.required_claims, vec!["exp".to_string()]);
    let s = signature_checks();
    assert_eq!(s.algorithm, SigningAlgorithm::RS256);
    assert!(!s.validate_exp);
    assert!(!s.validate_aud);
    assert!(s.required_claims.is_empty());
}

#[test]
fn claims_are_read_before_expiry_and_required_claims() {
    let (private_key, public_key) = key_pair();
    let c = IAuth::for_user(&user(), 1_000, 1_000);
    let token = generate_token(&claims_json(&c), &private_key);
    assert_eq!(decode_token_claims(&token, &public_key).unwrap(), claims_json(&c));
    assert_eq!(decode_token(&token, &public_key).unwrap_err(), "ExpiredSignature");

    let no_exp = generate_token("{\"id\":1}", &private_key);
    assert_eq!(decode_token_claims(&no_exp, &public_key).unwrap(), "{\"id\":1}");
    assert_eq!(decode_token(&no_exp, &public_key).unwrap_err(), "Missing required claim: exp");
}

#[test]
fn signed_token_decodes_to_its_claims() {
    let (private_key, public_key) = key_pair();
    let c = IAuth::issue(&user());
    let json = claims_json(&c);
    let token = generate_token(&json, &private_key);
    assert_eq!(token.split('.').count(), 3);
    let again = try_generate_token(&json, &private_key).unwrap();
    assert_eq!(token, again);
    let decoded = decode_token(&token, &public_key).unwrap();
    let a: serde_json::Value = serde_json::from_str(&decoded).unwrap();
    let b: serde_json::Value = serde_json::from_str(&json).unwrap();
    assert_eq!(a, b);
}

#[test]
fn expired_token_is_refused() {
    let (private_key, public_key) = key_pair();
    let c = IAuth::for_user(&user(), 1_000, 1_000);
    let token = generate_token(&claims_json(&c), &private_key);
    assert_eq!(decode_token(&token, &public_key).unwrap_err(), "ExpiredSignature");
}

#[test]
fn bad_keys_and_tokens_are_refused() {
    assert_eq!(try_generate_token("{}", "not a key"), Err(TokenSigningError));
    let (private_key, public_key) = key_pair();
    assert_eq!(try_generate_token("not json", &private_key), Err(TokenSigningError));
    assert!(decode_token("a.b.c", &public_key).is_err());
    assert!(decode_token("a.b.c", "not a key").is_err());
}
