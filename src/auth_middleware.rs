use vstd::prelude::*;

use crate::error::{message_of, status_of, ApiError, AuthFailure};
use crate::tokens::{hs256_claims, validation_of, TokenError, TokenService};

verus! {

/// The identity that a valid bearer token establishes for one request.
#[derive(Clone, Debug)]
pub struct Identity {
    pub user_id: String,
}

/// `h` starts with the literal `Bearer ` (capital B, one space).
pub open spec fn has_bearer_prefix(h: Seq<char>) -> bool {
    &&& h.len() >= 7
    &&& h[0] == 'B'
    &&& h[1] == 'e'
    &&& h[2] == 'a'
    &&& h[3] == 'r'
    &&& h[4] == 'e'
    &&& h[5] == 'r'
    &&& h[6] == ' '
}

/// The token of an `Authorization` header value, if it is a bearer credential.
pub open spec fn bearer_token(h: Seq<char>) -> Option<Seq<char>> {
    if has_bearer_prefix(h) && h.len() > 7 {
        Some(h.subrange(7, h.len() as int))
    } else {
        None
    }
}

/// How a request with this `Authorization` header (absent, or present but not
/// readable as text, is `None`) is answered at time `now`: the user id of a
/// valid token, or 401 with the reason.
pub open spec fn identify(header: Option<Seq<char>>, key: Seq<u8>, now: int) -> Result<Seq<char>, ApiError> {
    match header {
        None => Err(ApiError::Unauthorized(AuthFailure::MissingToken)),
        Some(h) => match bearer_token(h) {
            None => Err(ApiError::Unauthorized(AuthFailure::MissingToken)),
            Some(t) => match validation_of(t, key, now) {
                Ok(c) => Ok(c.0),
                Err(TokenError::TokenExpired) => Err(ApiError::Unauthorized(AuthFailure::ExpiredToken)),
                Err(_) => Err(ApiError::Unauthorized(AuthFailure::InvalidToken)),
            },
        },
    }
}

pub open spec fn bearer_prefix() -> Seq<char> {
    seq!['B', 'e', 'a', 'r', 'e', 'r', ' ']
}

/// Every refusal of the identity check is a 401. A request without an
/// `Authorization` header, or with `Bearer` and no token, is refused; a
/// genuine but expired token is refused with another error, and another
/// response body, than a token whose signature does not verify.
pub proof fn lemma_identity_refusals(header: Option<Seq<char>>, key: Seq<u8>, now: int, token: Seq<char>)
    ensures
        identify(header, key, now) matches Err(e) ==> status_of(e) == 401,
        identify(None, key, now) == Err::<Seq<char>, _>(ApiError::Unauthorized(AuthFailure::MissingToken)),
        identify(Some(seq!['B', 'e', 'a', 'r', 'e', 'r']), key, now) == Err::<Seq<char>, _>(
            ApiError::Unauthorized(AuthFailure::MissingToken),
        ),
        identify(Some(bearer_prefix()), key, now) == Err::<Seq<char>, _>(ApiError::Unauthorized(AuthFailure::MissingToken)),
        token.len() > 0 && (hs256_claims(token, key) matches Ok(c) && now >= c.2) ==> identify(Some(bearer_prefix() + token), key, now)
            == Err::<Seq<char>, _>(ApiError::Unauthorized(AuthFailure::ExpiredToken)),
        token.len() > 0 && hs256_claims(token, key) == Err::<(Seq<char>, Seq<char>, int), _>(TokenError::SignatureInvalid) ==> identify(
            Some(bearer_prefix() + token),
            key,
            now,
        ) == Err::<Seq<char>, _>(ApiError::Unauthorized(AuthFailure::InvalidToken)),
        message_of(ApiError::Unauthorized(AuthFailure::ExpiredToken)) != message_of(ApiError::Unauthorized(AuthFailure::InvalidToken)),
{
    let h = bearer_prefix() + token;
    assert(h.subrange(7, h.len() as int) =~= token);
    reveal_strlit("Token expired");
    reveal_strlit("Invalid token");
    assert(message_of(ApiError::Unauthorized(AuthFailure::ExpiredToken))[0] != message_of(ApiError::Unauthorized(AuthFailure::InvalidToken))[0]);
}

/// Reads the token out of an `Authorization` header value.
pub fn bearer_token_of(header: &str) -> (r: Option<&str>)
    ensures
        r matches Some(t) ==> bearer_token(header@) == Some(t@),
        r is None ==> bearer_token(header@) is None,
{
    let n = header.unicode_len();
    if n <= 7 {
        return None;
    }
    if header.get_char(0) == 'B' && header.get_char(1) == 'e' && header.get_char(2) == 'a'
        && header.get_char(3) == 'r' && header.get_char(4) == 'e' && header.get_char(5) == 'r'
        && header.get_char(6) == ' ' {
        Some(header.substring_char(7, n))
    } else {
        None
    }
}

/// The identity-extraction guard: it runs before every protected handler and
/// short-circuits with 401 unless the request carries a valid bearer token.
pub struct AuthMiddleWare;

/// The guard, bound to the token service that checks signatures.
pub struct AuthMiddlewareService {
    tokens: TokenService,
}

impl AuthMiddleWare {
    /// Binds the guard to the service's signing key.
    pub fn new_transform(&self, tokens: TokenService) -> (r: AuthMiddlewareService)
        ensures
            r.key() == tokens.key(),
    {
        AuthMiddlewareService { tokens }
    }
}

impl AuthMiddlewareService {
    pub closed spec fn key(&self) -> Seq<u8> {
        self.tokens.key()
    }

    /// Decides a request from its `Authorization` header at time `now`.
    /// A missing header, a missing `Bearer ` prefix or an empty token is
    /// refused before the token is looked at; an expired token is refused
    /// with a reason distinct from a forged or garbled one.
    pub fn call(&self, authorization: Option<&str>, now: i64) -> (r: Result<Identity, ApiError>)
        ensures
            identify(
                match authorization {
                    Some(h) => Some(h@),
                    None => None,
                },
                self.key(),
                now as int,
            ) == (match r {
                Ok(i) => Ok(i.user_id@),
                Err(e) => Err(e),
            }),
    {
        let header = match authorization {
            Some(h) => h,
            None => return Err(ApiError::Unauthorized(AuthFailure::MissingToken)),
        };
        let token = match bearer_token_of(header) {
            Some(t) => t,
            None => return Err(ApiError::Unauthorized(AuthFailure::MissingToken)),
        };
        match self.tokens.validate(token, now) {
            Ok(claims) => Ok(Identity { user_id: claims.id }),
            Err(TokenError::TokenExpired) => Err(ApiError::Unauthorized(AuthFailure::ExpiredToken)),
            Err(_) => Err(ApiError::Unauthorized(AuthFailure::InvalidToken)),
        }
    }
}

} // verus!
