use vstd::prelude::*;

use crate::credentials::{has_default_head, hash_password, is_hash_of, verification_of, verify_password, MAX_PASSWORD_CHARS};
use crate::error::{ApiError, AuthFailure, StoreFault};
use crate::models::{LoginUser, Profile, Roles, User};
use crate::auth_middleware::{bearer_prefix, identify};
use crate::tokens::{hs256_token, issued_for, lemma_issued_token_lifetime, TokenService, TOKEN_TTL_SECS};

verus! {

/// How a single-document insert into the store ended.
#[derive(Clone, Copy, Debug, PartialEq, Eq, Structural)]
pub enum InsertOutcome {
    Inserted,
    /// A unique index refused the document.
    Duplicate,
    Failed,
}

/// The answer to an insert: a uniqueness violation is a conflict, any other
/// failure a store error.
pub fn insert_reply(outcome: InsertOutcome) -> (r: Result<(), ApiError>)
    ensures
        outcome == InsertOutcome::Inserted <==> r is Ok,
        outcome == InsertOutcome::Duplicate ==> r == Err::<(), _>(ApiError::Conflict),
        outcome == InsertOutcome::Failed ==> r == Err::<(), _>(ApiError::Store),
{
    match outcome {
        InsertOutcome::Inserted => Ok(()),
        InsertOutcome::Duplicate => Err(ApiError::Conflict),
        InsertOutcome::Failed => Err(ApiError::Store),
    }
}

/// Every field that registration requires is non-empty.
pub open spec fn registration_complete(u: User) -> bool {
    &&& u.username@.len() > 0
    &&& u.full_name@.len() > 0
    &&& u.email@.len() > 0
    &&& u.password@.len() > 0
    &&& u.phone_number@.len() > 0
}

/// Prepares a registration for storage: checks the required fields and
/// replaces the plaintext password with its hash, keeping every other field.
/// A complete registration succeeds unless the password is too long to hash.
pub fn register(user: User) -> (r: Result<User, ApiError>)
    ensures
        !registration_complete(user) ==> r == Err::<User, _>(ApiError::Validation),
        registration_complete(user) && user.password@.len() <= MAX_PASSWORD_CHARS ==> r is Ok,
        registration_complete(user) ==> match r {
            Ok(s) => {
                &&& is_hash_of(user.password@, s.password@)
                &&& has_default_head(s.password@)
                &&& s == User { password: s.password, ..user }
            },
            Err(e) => e == ApiError::Store,
        },
{
    if user.username.as_str().is_empty() || user.full_name.as_str().is_empty() || user.email.as_str().is_empty()
        || user.password.as_str().is_empty() || user.phone_number.as_str().is_empty() {
        return Err(ApiError::Validation);
    }
    match hash_password(user.password.as_str()) {
        Ok(hashed) => Ok(User { password: hashed, ..user }),
        Err(_) => Err(ApiError::Store),
    }
}

/// Decides a login from the lookup of the user by email. An unknown email and
/// a wrong password give the same answer; a correct password gets a token
/// issued at `now`.
pub fn login(credentials: &LoginUser, found: Result<Option<User>, StoreFault>, tokens: &TokenService, now: i64) -> (r: Result<String, ApiError>)
    requires
        now <= i64::MAX - TOKEN_TTL_SECS,
    ensures
        found is Err ==> r == Err::<String, _>(ApiError::Store),
        found matches Ok(None) ==> r == Err::<String, _>(ApiError::Unauthorized(AuthFailure::BadCredentials)),
        found matches Ok(Some(u)) ==> match verification_of(credentials.password@, u.password@) {
            Err(_) => r == Err::<String, _>(ApiError::Store),
            Ok(false) => r == Err::<String, _>(ApiError::Unauthorized(AuthFailure::BadCredentials)),
            Ok(true) => match u.id {
                None => r == Err::<String, _>(ApiError::Store),
                Some(id) => r matches Ok(t) && t@ == hs256_token(id@, u.username@, now + TOKEN_TTL_SECS, tokens.key())
                    && t@.len() > 0 && issued_for(t@, tokens.key(), id@, u.username@, now as int),
            },
        },
{
    let user = match found {
        Err(_) => return Err(ApiError::Store),
        Ok(None) => return Err(ApiError::Unauthorized(AuthFailure::BadCredentials)),
        Ok(Some(u)) => u,
    };
    match verify_password(credentials.password.as_str(), user.password.as_str()) {
        Err(_) => Err(ApiError::Store),
        Ok(false) => Err(ApiError::Unauthorized(AuthFailure::BadCredentials)),
        Ok(true) => match &user.id {
            None => Err(ApiError::Store),
            Some(id) => {
                let hex = id.to_hex();
                Ok(tokens.issue(hex.as_str(), user.username.as_str(), now))
            },
        },
    }
}

/// A token that login hands out, sent back as `Bearer <token>` while it is
/// fresh, passes the identity check as the id of the user who logged in.
pub proof fn lemma_login_token_admits(
    token: Seq<char>,
    key: Seq<u8>,
    id: Seq<char>,
    username: Seq<char>,
    issued_at: int,
    now: int,
)
    requires
        token.len() > 0,
        issued_for(token, key, id, username, issued_at),
        issued_at <= now < issued_at + TOKEN_TTL_SECS,
    ensures
        identify(Some(bearer_prefix() + token), key, now) == Ok::<Seq<char>, ApiError>(id),
{
    lemma_issued_token_lifetime(token, key, id, username, issued_at, now);
    let h = bearer_prefix() + token;
    assert(h.subrange(7, h.len() as int) =~= token);
}

/// The profile that `/users/me` returns for a stored user.
pub open spec fn profile_matches(p: Profile, u: User) -> bool {
    &&& p.id is Some <==> u.id is Some
    &&& (u.id matches Some(d) ==> p.id matches Some(s) && s@ == d@)
    &&& p.full_name@ == u.full_name@
    &&& p.email@ == u.email@
    &&& p.phone_number@ == u.phone_number@
}

/// Answers `/users/me` from the lookup of the caller's user: the public
/// profile fields, never the password hash.
pub fn get_data(found: Result<Option<User>, StoreFault>) -> (r: Result<Profile, ApiError>)
    ensures
        found is Err ==> r == Err::<Profile, _>(ApiError::Store),
        found matches Ok(None) ==> r == Err::<Profile, _>(ApiError::Unauthorized(AuthFailure::UnknownUser)),
        found matches Ok(Some(u)) ==> (r matches Ok(p) && profile_matches(p, u)),
{
    match found {
        Err(_) => Err(ApiError::Store),
        Ok(None) => Err(ApiError::Unauthorized(AuthFailure::UnknownUser)),
        Ok(Some(u)) => {
            let id = match &u.id {
                Some(d) => Some(d.to_hex()),
                None => None,
            };
            Ok(Profile { id, full_name: u.full_name, email: u.email, phone_number: u.phone_number })
        },
    }
}

/// The bootstrap of the administrator role, given whether one already exists:
/// at most one role named "Administrator" is ever created.
pub fn create_admin_role(existing: Result<bool, StoreFault>) -> (r: Result<Roles, ApiError>)
    ensures
        existing is Err ==> r == Err::<Roles, _>(ApiError::Store),
        existing == Ok::<bool, StoreFault>(true) ==> r == Err::<Roles, _>(ApiError::Conflict),
        existing == Ok::<bool, StoreFault>(false) ==> (r matches Ok(role) && role.id is None && role.models is None
            && role.role_name@ == "Administrator"@),
{
    match existing {
        Err(_) => Err(ApiError::Store),
        Ok(true) => Err(ApiError::Conflict),
        Ok(false) => Ok(Roles { id: None, role_name: String::from_str("Administrator"), models: None }),
    }
}

} // verus!
