use vstd::prelude::*;

verus! {

/// Why a request was refused with 401.
#[derive(Clone, Copy, Debug, PartialEq, Eq, Structural)]
pub enum AuthFailure {
    /// No `Authorization` header, or one without a `Bearer ` token.
    MissingToken,
    /// The token could not be parsed or its signature does not match.
    InvalidToken,
    /// The token was genuine but its expiry has passed.
    ExpiredToken,
    /// The token names a user that does not exist (any more).
    UnknownUser,
    /// Login failed; deliberately the same for an unknown email and a wrong password.
    BadCredentials,
}

/// The error taxonomy of the service; each kind maps to one HTTP status.
#[derive(Clone, Copy, Debug, PartialEq, Eq, Structural)]
pub enum ApiError {
    Validation,
    Unauthorized(AuthFailure),
    Forbidden,
    Conflict,
    NotFound,
    Store,
    Config,
}

/// A failure of the document store (connection, timeout, server error).
#[derive(Clone, Copy, Debug, PartialEq, Eq, Structural)]
pub struct StoreFault;

pub open spec fn status_of(e: ApiError) -> u16 {
    match e {
        ApiError::Validation => 400,
        ApiError::Unauthorized(_) => 401,
        ApiError::Forbidden => 403,
        ApiError::Conflict => 409,
        ApiError::NotFound => 404,
        ApiError::Store => 500,
        ApiError::Config => 500,
    }
}

/// The response body for each error.
pub open spec fn message_of(e: ApiError) -> Seq<char> {
    match e {
        ApiError::Validation => "Missing or empty required field"@,
        ApiError::Unauthorized(AuthFailure::MissingToken) => "Missing bearer token"@,
        ApiError::Unauthorized(AuthFailure::InvalidToken) => "Invalid token"@,
        ApiError::Unauthorized(AuthFailure::ExpiredToken) => "Token expired"@,
        ApiError::Unauthorized(AuthFailure::UnknownUser) => "Unknown user"@,
        ApiError::Unauthorized(AuthFailure::BadCredentials) => "Invalid credentials"@,
        ApiError::Forbidden => "Forbidden"@,
        ApiError::Conflict => "Already exists"@,
        ApiError::NotFound => "Not found"@,
        ApiError::Store => "Internal server error"@,
        ApiError::Config => "Server misconfigured"@,
    }
}

impl ApiError {
    /// The HTTP status code this error is answered with.
    pub fn status(&self) -> (r: u16)
        ensures
            r == status_of(*self),
    {
        match self {
            ApiError::Validation => 400,
            ApiError::Unauthorized(_) => 401,
            ApiError::Forbidden => 403,
            ApiError::Conflict => 409,
            ApiError::NotFound => 404,
            ApiError::Store => 500,
            ApiError::Config => 500,
        }
    }

    /// The response body sent to the client. It tells an expired token apart
    /// from an invalid one, and never says which half of a login was wrong.
    pub fn message(&self) -> (r: &'static str)
        ensures
            r@ == message_of(*self),
    {
        match self {
            ApiError::Validation => "Missing or empty required field",
            ApiError::Unauthorized(AuthFailure::MissingToken) => "Missing bearer token",
            ApiError::Unauthorized(AuthFailure::InvalidToken) => "Invalid token",
            ApiError::Unauthorized(AuthFailure::ExpiredToken) => "Token expired",
            ApiError::Unauthorized(AuthFailure::UnknownUser) => "Unknown user",
            ApiError::Unauthorized(AuthFailure::BadCredentials) => "Invalid credentials",
            ApiError::Forbidden => "Forbidden",
            ApiError::Conflict => "Already exists",
            ApiError::NotFound => "Not found",
            ApiError::Store => "Internal server error",
            ApiError::Config => "Server misconfigured",
        }
    }
}

} // verus!
