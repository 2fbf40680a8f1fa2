use vstd::prelude::*;

use argon2::password_hash::rand_core::OsRng;
use argon2::password_hash::{PasswordHash, PasswordHasher, PasswordVerifier, SaltString};
use argon2::Argon2;

verus! {

/// Why hashing or verifying a password failed.
#[derive(Clone, Copy, Debug, PartialEq, Eq, Structural)]
pub enum HashError {
    /// The hash could not be computed or encoded.
    HashingError,
    /// The stored string is not a PHC-format password hash.
    InvalidHashFormat,
}

/// `argon2::password_hash::PasswordHash::new` accepts `hash` as a PHC string.
pub uninterp spec fn phc_parses(hash: Seq<char>) -> bool;

/// `Argon2::default().verify_password` accepts `password` against the parsed `hash`.
pub uninterp spec fn argon2_accepts(password: Seq<char>, hash: Seq<char>) -> bool;

/// `hash` is a well-formed argon2 hash that `password` verifies against.
pub open spec fn is_hash_of(password: Seq<char>, hash: Seq<char>) -> bool {
    phc_parses(hash) && argon2_accepts(password, hash)
}

/// The outcome that `verify_password` owes for a password and a stored hash.
pub open spec fn verification_of(password: Seq<char>, hash: Seq<char>) -> Result<bool, HashError> {
    if phc_parses(hash) {
        Ok(argon2_accepts(password, hash))
    } else {
        Err(HashError::InvalidHashFormat)
    }
}

/// The head of every PHC string that the default `Argon2` writes: algorithm
/// argon2id, version 19 and the default costs (19 MiB, two passes, one lane),
/// before the salt and the output.
pub open spec fn argon2id_default_head() -> Seq<char> {
    "$argon2id$v=19$m=19456,t=2,p=1$"@
}

/// The hash string names argon2id with the default parameters.
pub open spec fn has_default_head(hash: Seq<char>) -> bool {
    hash.len() > argon2id_default_head().len() && hash.subrange(0, argon2id_default_head().len() as int)
        == argon2id_default_head()
}

/// Passwords up to this many characters are short enough for argon2, whose
/// limit is `MAX_PWD_LEN` (2^32 - 1) bytes, at most four per character.
pub const MAX_PASSWORD_CHARS: usize = 0x3FFF_FFFF;

/// Relies on `SaltString::generate(&mut OsRng)` for a fresh random salt and on
/// `Argon2::default().hash_password` with its `to_string()`. Hashing fails only
/// for a password over `MAX_PWD_LEN` bytes. The PHC string starts with
/// `Algorithm::default()` (argon2id), `Version::default()` (19) and
/// `Params::default()` (m=19456, t=2, p=1); it parses again, and
/// `verify_password` with the default `Argon2` recomputes the same output
/// from the embedded salt and parameters.
#[verifier::external_body]
fn argon2_hash(password: &str) -> (r: Option<String>)
    ensures
        password@.len() <= MAX_PASSWORD_CHARS ==> r is Some,
        r matches Some(h) ==> phc_parses(h@) && argon2_accepts(password@, h@),
        r matches Some(h) ==> has_default_head(h@),
{
    let salt = SaltString::generate(&mut OsRng);
    match Argon2::default().hash_password(password.as_bytes(), &salt) {
        Ok(h) => Some(h.to_string()),
        Err(_) => None,
    }
}

/// Relies on `PasswordHash::new` to parse the PHC string and on
/// `Argon2::default().verify_password`, which compares in constant time.
#[verifier::external_body]
fn argon2_verify(password: &str, hash: &str) -> (r: Option<bool>)
    ensures
        r is Some <==> phc_parses(hash@),
        r matches Some(b) ==> b == argon2_accepts(password@, hash@),
{
    match PasswordHash::new(hash) {
        Ok(parsed) => Some(Argon2::default().verify_password(password.as_bytes(), &parsed).is_ok()),
        Err(_) => None,
    }
}

/// Hashes a password with argon2id, default costs and a fresh random salt,
/// into one self-describing PHC string. Any password of a length argon2
/// accepts is hashed.
pub fn hash_password(password: &str) -> (r: Result<String, HashError>)
    ensures
        password@.len() <= MAX_PASSWORD_CHARS ==> r is Ok,
        r matches Ok(h) ==> is_hash_of(password@, h@) && has_default_head(h@),
        r matches Err(e) ==> e == HashError::HashingError,
{
    match argon2_hash(password) {
        Some(h) => Ok(h),
        None => Err(HashError::HashingError),
    }
}

/// Checks a password against a stored PHC hash string. A mismatch is
/// `Ok(false)`; only an unparsable hash is an error.
pub fn verify_password(password: &str, hash: &str) -> (r: Result<bool, HashError>)
    ensures
        r == verification_of(password@, hash@),
{
    match argon2_verify(password, hash) {
        Some(b) => Ok(b),
        None => Err(HashError::InvalidHashFormat),
    }
}

/// Every hash made from a password verifies that same password.
pub proof fn lemma_hash_verifies_own_password(password: Seq<char>, hash: Seq<char>)
    requires
        is_hash_of(password, hash),
    ensures
        verification_of(password, hash) == Ok::<bool, HashError>(true),
{
}

/// Two hashes made from one password, whatever salts they drew, both verify it.
pub proof fn lemma_rehash_verifies(password: Seq<char>, first: Seq<char>, second: Seq<char>)
    requires
        is_hash_of(password, first),
        is_hash_of(password, second),
    ensures
        verification_of(password, first) == Ok::<bool, HashError>(true),
        verification_of(password, second) == Ok::<bool, HashError>(true),
{
    lemma_hash_verifies_own_password(password, first);
    lemma_hash_verifies_own_password(password, second);
}

} // verus!
