use vstd::prelude::*;

use jsonwebtoken::errors::ErrorKind;
use jsonwebtoken::{Algorithm, DecodingKey, EncodingKey, Header, Validation};

use crate::error::ApiError;

verus! {

/// How long an issued token stays valid, in seconds.
pub const TOKEN_TTL_SECS: i64 = 3600;

/// The signed payload of an identity token.
#[derive(Clone, Debug)]
pub struct Claims {
    pub id: String,
    pub username: String,
    /// Expiry, in seconds since the Unix epoch.
    pub exp: i64,
}

impl View for Claims {
    type V = (Seq<char>, Seq<char>, int);

    open spec fn view(&self) -> (Seq<char>, Seq<char>, int) {
        (self.id@, self.username@, self.exp as int)
    }
}

/// Why a token was not accepted.
#[derive(Clone, Copy, Debug, PartialEq, Eq, Structural)]
pub enum TokenError {
    TokenExpired,
    TokenMalformed,
    SignatureInvalid,
}

/// The compact HS256 token that `jsonwebtoken::encode` produces for a claims
/// object `{id, username, exp}` signed with `key`.
pub uninterp spec fn hs256_token(id: Seq<char>, username: Seq<char>, exp: int, key: Seq<u8>) -> Seq<char>;

/// What `jsonwebtoken::decode` with HS256 and `key` reads from `token`, its own
/// expiry check left out: the `id`, `username` and `exp` claims, or why not.
pub uninterp spec fn hs256_claims(token: Seq<char>, key: Seq<u8>) -> Result<(Seq<char>, Seq<char>, int), TokenError>;

/// Relies on `jsonwebtoken::encode` with the default header (HS256) and an HMAC
/// key from `EncodingKey::from_secret`. The token depends on the claims and the
/// key alone, it is never empty (its three parts are joined by dots), and
/// `decode` with the same key reads the claims back. For an HMAC
/// key and a JSON object as claims, `encode` returns no error.
#[verifier::external_body]
fn encode_hs256(id: &str, username: &str, exp: i64, key: &[u8]) -> (r: Option<String>)
    ensures
        r is Some,
        r matches Some(t) ==> t@ == hs256_token(id@, username@, exp as int, key@) && t@.len() > 0,
        r matches Some(t) ==> hs256_claims(t@, key@) == claims_ok(id@, username@, exp as int),
{
    let mut claims = serde_json::Map::new();
    claims.insert("id".to_string(), serde_json::Value::from(id));
    claims.insert("username".to_string(), serde_json::Value::from(username));
    claims.insert("exp".to_string(), serde_json::Value::from(exp));
    jsonwebtoken::encode(&Header::default(), &claims, &EncodingKey::from_secret(key)).ok()
}

/// Relies on `jsonwebtoken::decode` with HS256, no required claims and its own
/// expiry check switched off: a signature that does not match is
/// `InvalidSignature`; any other failure, or a payload without a string `id`,
/// a string `username` and an integer `exp`, counts as malformed.
#[verifier::external_body]
fn decode_hs256(token: &str, key: &[u8]) -> (r: Result<(String, String, i64), TokenError>)
    ensures
        hs256_claims(token@, key@) == (match r {
            Ok(c) => Ok((c.0@, c.1@, c.2 as int)),
            Err(e) => Err(e),
        }),
{
    let mut rules = Validation::new(Algorithm::HS256);
    rules.validate_exp = false;
    rules.required_spec_claims.clear();
    match jsonwebtoken::decode::<serde_json::Value>(token, &DecodingKey::from_secret(key), &rules) {
        Ok(d) => match (d.claims["id"].as_str(), d.claims["username"].as_str(), d.claims["exp"].as_i64()) {
            (Some(i), Some(u), Some(e)) => Ok((i.to_string(), u.to_string(), e)),
            _ => Err(TokenError::TokenMalformed),
        },
        Err(e) => match e.kind() {
            ErrorKind::InvalidSignature => Err(TokenError::SignatureInvalid),
            _ => Err(TokenError::TokenMalformed),
        },
    }
}

/// A successful reading of the claims `(id, username, exp)`.
pub open spec fn claims_ok(id: Seq<char>, username: Seq<char>, exp: int) -> Result<(Seq<char>, Seq<char>, int), TokenError> {
    Ok((id, username, exp))
}

/// The outcome of validating `token` with `key` at time `now`: the claims when
/// the signature verifies and `now` is before the expiry.
pub open spec fn validation_of(token: Seq<char>, key: Seq<u8>, now: int) -> Result<(Seq<char>, Seq<char>, int), TokenError> {
    match hs256_claims(token, key) {
        Ok(c) => if now < c.2 { Ok(c) } else { Err(TokenError::TokenExpired) },
        Err(e) => Err(e),
    }
}

/// `token` carries, under `key`, the claims of a token issued at `issued_at`
/// for `id` and `username`.
pub open spec fn issued_for(token: Seq<char>, key: Seq<u8>, id: Seq<char>, username: Seq<char>, issued_at: int) -> bool {
    hs256_claims(token, key) == claims_ok(id, username, issued_at + TOKEN_TTL_SECS)
}

/// Issues and validates identity tokens with one process-wide secret key.
pub struct TokenService {
    secret: Vec<u8>,
}

impl TokenService {
    /// The signing key.
    pub closed spec fn key(&self) -> Seq<u8> {
        self.secret@
    }

    /// Builds the service from the configured secret; a missing or empty
    /// secret is a configuration error.
    pub fn new(secret: Option<Vec<u8>>) -> (r: Result<TokenService, ApiError>)
        ensures
            match secret {
                Some(s) if s@.len() > 0 => r matches Ok(t) && t.key() == s@,
                _ => r == Err::<TokenService, _>(ApiError::Config),
            },
    {
        match secret {
            Some(s) => {
                if s.len() > 0 {
                    Ok(TokenService { secret: s })
                } else {
                    Err(ApiError::Config)
                }
            },
            None => Err(ApiError::Config),
        }
    }

    /// Issues a token for the user, expiring one TTL after `now`.
    pub fn issue(&self, user_id: &str, username: &str, now: i64) -> (r: String)
        requires
            now <= i64::MAX - TOKEN_TTL_SECS,
        ensures
            r@ == hs256_token(user_id@, username@, now + TOKEN_TTL_SECS, self.key()),
            r@.len() > 0,
            issued_for(r@, self.key(), user_id@, username@, now as int),
    {
        let exp: i64 = now + TOKEN_TTL_SECS;
        match encode_hs256(user_id, username, exp, self.secret.as_slice()) {
            Some(t) => t,
            None => {
                proof {
                    assert(false);
                }
                String::new()
            },
        }
    }

    /// Checks the token's signature, then that `now` is before its expiry.
    pub fn validate(&self, token: &str, now: i64) -> (r: Result<Claims, TokenError>)
        ensures
            validation_of(token@, self.key(), now as int) == (match r {
                Ok(c) => Ok(c@),
                Err(e) => Err(e),
            }),
    {
        match decode_hs256(token, self.secret.as_slice()) {
            Ok((id, username, exp)) => {
                if now < exp {
                    Ok(Claims { id, username, exp })
                } else {
                    Err(TokenError::TokenExpired)
                }
            },
            Err(e) => Err(e),
        }
    }
}

/// A token is accepted from its issue until just before its expiry one TTL
/// later, with the claims it was issued with, and refused as expired from the
/// expiry on.
pub proof fn lemma_issued_token_lifetime(
    token: Seq<char>,
    key: Seq<u8>,
    id: Seq<char>,
    username: Seq<char>,
    issued_at: int,
    now: int,
)
    requires
        issued_for(token, key, id, username, issued_at),
    ensures
        issued_at <= now < issued_at + TOKEN_TTL_SECS ==> validation_of(token, key, now) == claims_ok(id, username, issued_at + TOKEN_TTL_SECS),
        now >= issued_at + TOKEN_TTL_SECS ==> validation_of(token, key, now) == Err::<(Seq<char>, Seq<char>, int), _>(TokenError::TokenExpired),
{
}

} // verus!
