use vstd::prelude::*;

use crate::ids::DocId;

verus! {

/// A registered user as stored in the `users` collection.
#[derive(Clone, Debug)]
pub struct User {
    pub id: Option<DocId>,
    pub username: String,
    pub full_name: String,
    pub email: String,
    /// The argon2 PHC hash of the password, never the plaintext.
    pub password: String,
    pub phone_number: String,
    pub roles: Option<Vec<DocId>>,
}

impl Default for User {
    fn default() -> (r: User)
        ensures
            r.id is None,
            r.username@.len() == 0,
            r.full_name@.len() == 0,
            r.email@.len() == 0,
            r.password@.len() == 0,
            r.phone_number@.len() == 0,
            r.roles is None,
    {
        User {
            id: None,
            username: String::new(),
            full_name: String::new(),
            email: String::new(),
            password: String::new(),
            phone_number: String::new(),
            roles: None,
        }
    }
}

/// What a role may do to one class of resources; an absent bit grants nothing.
#[derive(Clone, Debug)]
pub struct Permissions {
    pub model_name: Option<String>,
    pub create: Option<bool>,
    pub read: Option<bool>,
    pub update: Option<bool>,
    pub delete: Option<bool>,
}

/// A named bundle of permissions, stored in the `roles` collection.
#[derive(Clone, Debug)]
pub struct Roles {
    pub id: Option<DocId>,
    pub role_name: String,
    pub models: Option<Vec<Permissions>>,
}

impl Default for Roles {
    fn default() -> (r: Roles)
        ensures
            r.id is None,
            r.role_name@.len() == 0,
            r.models matches Some(m) && m@.len() == 0,
    {
        Roles { id: None, role_name: String::new(), models: Some(Vec::new()) }
    }
}

/// A key/value detail attached to a product.
#[derive(Clone, Debug)]
pub struct Information {
    pub key: String,
    pub value: String,
}

/// The body of a login request.
#[derive(Clone, Debug)]
pub struct LoginUser {
    pub email: String,
    pub password: String,
}

/// The part of a user that `/users/me` returns: no password hash, no roles.
#[derive(Clone, Debug)]
pub struct Profile {
    pub id: Option<String>,
    pub full_name: String,
    pub email: String,
    pub phone_number: String,
}

} // verus!
