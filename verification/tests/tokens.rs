use spotitube_auth::config::AppConfig;
use spotitube_auth::errors::SpotitubeError;
use spotitube_auth::jwt_service::JwtService;
use spotitube_auth::user_id::UserId;

fn issuer(secret: &str) -> JwtService {
    JwtService::new(AppConfig::new(String::from(secret), String::from("testsalt")))
}

#[test]
fn token_roundtrip_recovers_id() {
    let jwt = issuer("test-secret");
    let id = UserId { value: 0x1234_5678_9abc_def0_1122_3344_5566_7788 };
    let token = jwt.new_token(id, "alice").unwrap();
    let recovered = jwt.get_user_id_from_token(token).unwrap();
    assert_eq!(recovered.value, id.value);
}

#[test]
fn tampered_token_rejected() {
    let jwt = issuer("test-secret");
    let id = UserId { value: 42 };
    let token = jwt.new_token(id, "alice").unwrap();
    let bytes = token.as_bytes();
    // Mutate one byte at a time: early (header), middle (payload), late
    // (signature); every mutation must be rejected.
    for &pos in &[0usize, bytes.len() / 2, bytes.len() - 1] {
        let mut mutated = bytes.to_vec();
        mutated[pos] = if mutated[pos] == b'A' { b'B' } else { b'A' };
        let mutated = String::from_utf8(mutated).unwrap();
        if mutated == token {
            continue;
        }
        let r = jwt.get_user_id_from_token(mutated);
        assert!(matches!(r, Err(SpotitubeError::InvalidToken)));
    }
}

#[test]
fn token_under_other_secret_rejected() {
    let jwt = issuer("test-secret");
    let other = issuer("another-secret");
    let token = jwt.new_token(UserId { value: 7 }, "alice").unwrap();
    let r = other.get_user_id_from_token(token);
    assert!(matches!(r, Err(SpotitubeError::InvalidToken)));
}

#[test]
fn garbage_token_rejected() {
    let jwt = issuer("test-secret");
    let r = jwt.get_user_id_from_token(String::from("not.a.token"));
    assert!(matches!(r, Err(SpotitubeError::InvalidToken)));
}

#[test]
fn token_is_deterministic_for_same_identity() {
    let jwt = issuer("test-secret");
    let id = UserId { value: 42 };
    let first = jwt.new_token(id, "alice").unwrap();
    let second = jwt.new_token(id, "alice").unwrap();
    assert_eq!(first, second);
}

#[test]
fn token_missing_subject_claim_rejected() {
    let jwt = issuer("test-secret");
    let mut claims: std::collections::BTreeMap<String, String> = std::collections::BTreeMap::new();
    claims.insert(String::from("user_id"), uuid::Uuid::from_u128(42).to_string());
    let token = jsonwebtoken::encode(
        &jsonwebtoken::Header::default(),
        &claims,
        &jsonwebtoken::EncodingKey::from_secret("test-secret".as_bytes()),
    )
    .unwrap();
    let r = jwt.get_user_id_from_token(token);
    assert!(matches!(r, Err(SpotitubeError::InvalidToken)));
}

#[test]
fn token_malformed_id_claim_rejected() {
    let jwt = issuer("test-secret");
    let mut claims: std::collections::BTreeMap<String, String> = std::collections::BTreeMap::new();
    claims.insert(String::from("sub"), String::from("alice"));
    claims.insert(String::from("user_id"), String::from("not-a-well-formed-id"));
    let token = jsonwebtoken::encode(
        &jsonwebtoken::Header::default(),
        &claims,
        &jsonwebtoken::EncodingKey::from_secret("test-secret".as_bytes()),
    )
    .unwrap();
    let r = jwt.get_user_id_from_token(token);
    assert!(matches!(r, Err(SpotitubeError::InvalidToken)));
}

#[test]
fn token_is_not_the_username() {
    let jwt = issuer("test-secret");
    let token = jwt.new_token(UserId { value: 7 }, "alice").unwrap();
    assert!(!token.is_empty());
    assert_ne!(token, "alice");
}
