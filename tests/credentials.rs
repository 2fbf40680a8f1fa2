use auth_service::credentials::{hash_password, verify_password, HashError};

#[test]
fn hashed_password_verifies() {
    let hash = hash_password("secret123").unwrap();
    assert_ne!(hash, "secret123");
    assert!(hash.starts_with("$argon2id$v=19$m=19456,t=2,p=1$"));
    assert!(hash.len() > "$argon2id$v=19$m=19456,t=2,p=1$".len());
    assert_eq!(verify_password("secret123", &hash), Ok(true));
}

#[test]
fn other_password_does_not_verify() {
    let hash = hash_password("secret123").unwrap();
    assert_eq!(verify_password("secret124", &hash), Ok(false));
    assert_eq!(verify_password("", &hash), Ok(false));
}

#[test]
fn hashing_twice_salts_differently() {
    let first = hash_password("secret123").unwrap();
    let second = hash_password("secret123").unwrap();
    assert_ne!(first, second);
    assert_eq!(verify_password("secret123", &first), Ok(true));
    assert_eq!(verify_password("secret123", &second), Ok(true));
}

#[test]
fn empty_password_hashes_and_verifies() {
    let hash = hash_password("").unwrap();
    assert_eq!(verify_password("", &hash), Ok(true));
    assert_eq!(verify_password("x", &hash), Ok(false));
}

#[test]
fn unparsable_hash_is_an_error() {
    assert_eq!(verify_password("secret123", "not a hash"), Err(HashError::InvalidHashFormat));
    assert_eq!(verify_password("secret123", ""), Err(HashError::InvalidHashFormat));
}

#[test]
fn long_and_unicode_passwords_hash() {
    let long = "x".repeat(10_000);
    let hash = hash_password(&long).unwrap();
    assert_eq!(verify_password(&long, &hash), Ok(true));
    let unicode = "pässwörd-密码-🔑";
    let hash = hash_password(unicode).unwrap();
    assert_eq!(verify_password(unicode, &hash), Ok(true));
    assert_eq!(verify_password("passwort", &hash), Ok(false));
}
