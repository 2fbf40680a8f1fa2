use auth_service::error::ApiError;
use auth_service::tokens::{TokenError, TokenService, TOKEN_TTL_SECS};

fn service(key: &str) -> TokenService {
    match TokenService::new(Some(key.as_bytes().to_vec())) {
        Ok(t) => t,
        Err(_) => panic!("a non-empty key is accepted"),
    }
}

#[test]
fn issued_token_validates_until_expiry() {
    let tokens = service("top secret");
    let token = tokens.issue("65a1f0c2b3d4e5f607182930", "alice", 1_700_000_000);
    assert_eq!(token.split('.').count(), 3);
    let claims = tokens.validate(&token, 1_700_000_000).unwrap();
    assert_eq!(claims.id, "65a1f0c2b3d4e5f607182930");
    assert_eq!(claims.username, "alice");
    assert_eq!(claims.exp, 1_700_000_000 + 3600);
    assert!(tokens.validate(&token, 1_700_000_000 + 3599).is_ok());
}

#[test]
fn token_expires_after_ttl() {
    let tokens = service("top secret");
    let token = tokens.issue("65a1f0c2b3d4e5f607182930", "alice", 1_700_000_000);
    assert_eq!(TOKEN_TTL_SECS, 3600);
    assert_eq!(tokens.validate(&token, 1_700_003_600).err(), Some(TokenError::TokenExpired));
    assert_eq!(tokens.validate(&token, 1_800_000_000).err(), Some(TokenError::TokenExpired));
}

#[test]
fn token_from_other_key_has_invalid_signature() {
    let issuer = service("key one");
    let checker = service("key two");
    let token = issuer.issue("65a1f0c2b3d4e5f607182930", "alice", 1_700_000_000);
    assert_eq!(checker.validate(&token, 1_700_000_000).err(), Some(TokenError::SignatureInvalid));
}

#[test]
fn garbled_token_is_malformed() {
    let tokens = service("top secret");
    assert_eq!(tokens.validate("not-a-token", 0).err(), Some(TokenError::TokenMalformed));
    assert_eq!(tokens.validate("", 0).err(), Some(TokenError::TokenMalformed));
    assert_eq!(tokens.validate("a.b.c", 0).err(), Some(TokenError::TokenMalformed));
}

#[test]
fn tampered_payload_fails_signature() {
    let tokens = service("top secret");
    let token = tokens.issue("65a1f0c2b3d4e5f607182930", "alice", 1_700_000_000);
    let other = tokens.issue("65a1f0c2b3d4e5f607182931", "mallory", 1_700_000_000);
    let parts: Vec<&str> = token.split('.').collect();
    let other_parts: Vec<&str> = other.split('.').collect();
    let forged = format!("{}.{}.{}", parts[0], other_parts[1], parts[2]);
    assert_eq!(tokens.validate(&forged, 1_700_000_000).err(), Some(TokenError::SignatureInvalid));
}

#[test]
fn missing_or_empty_secret_is_a_config_error() {
    assert!(matches!(TokenService::new(None), Err(ApiError::Config)));
    assert!(matches!(TokenService::new(Some(Vec::new())), Err(ApiError::Config)));
    assert!(TokenService::new(Some(vec![7u8])).is_ok());
}
