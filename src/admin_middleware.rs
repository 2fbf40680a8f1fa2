use vstd::prelude::*;

use crate::auth_middleware::Identity;
use crate::error::{ApiError, AuthFailure, StoreFault};
use crate::ids::{is_object_id_hex, lower_hex, DocId};
use crate::models::{Permissions, Roles, User};

verus! {

/// One of the four capabilities a permission entry can grant.
#[derive(Clone, Copy, Debug, PartialEq, Eq, Structural)]
pub enum Action {
    Create,
    Read,
    Update,
    Delete,
}

/// What a route demands of the caller's roles.
#[derive(Clone, Debug)]
pub struct Requirement {
    pub resource: String,
    pub action: Action,
}

pub open spec fn bit_of(p: Permissions, action: Action) -> Option<bool> {
    match action {
        Action::Create => p.create,
        Action::Read => p.read,
        Action::Update => p.update,
        Action::Delete => p.delete,
    }
}

/// The entry names `resource` and sets the capability bit of `action`.
pub open spec fn entry_grants(p: Permissions, resource: Seq<char>, action: Action) -> bool {
    &&& p.model_name matches Some(n) && n@ == resource
    &&& bit_of(p, action) == Some(true)
}

pub open spec fn entries_grant(entries: Seq<Permissions>, resource: Seq<char>, action: Action) -> bool {
    exists|j: int| 0 <= j < entries.len() && entry_grants(#[trigger] entries[j], resource, action)
}

pub open spec fn role_grants(role: Roles, resource: Seq<char>, action: Action) -> bool {
    match role.models {
        Some(ms) => entries_grant(ms@, resource, action),
        None => false,
    }
}

/// Some role among `roles` grants `action` on `resource`.
pub open spec fn roles_grant(roles: Seq<Roles>, resource: Seq<char>, action: Action) -> bool {
    exists|i: int| 0 <= i < roles.len() && role_grants(#[trigger] roles[i], resource, action)
}

fn entry_grants_exec(p: &Permissions, resource: &String, action: Action) -> (r: bool)
    ensures
        r == entry_grants(*p, resource@, action),
{
    let named = match &p.model_name {
        Some(n) => n.eq(resource),
        None => false,
    };
    let bit = match action {
        Action::Create => p.create,
        Action::Read => p.read,
        Action::Update => p.update,
        Action::Delete => p.delete,
    };
    named && match bit {
        Some(b) => b,
        None => false,
    }
}

fn role_grants_exec(role: &Roles, resource: &String, action: Action) -> (r: bool)
    ensures
        r == role_grants(*role, resource@, action),
{
    match &role.models {
        None => false,
        Some(ms) => {
            let mut j: usize = 0;
            while j < ms.len()
                invariant
                    role.models == Some(*ms),
                    0 <= j <= ms@.len(),
                    forall|k: int| 0 <= k < j ==> !entry_grants(#[trigger] ms@[k], resource@, action),
                decreases ms@.len() - j,
            {
                if entry_grants_exec(&ms[j], resource, action) {
                    assert(entry_grants(ms@[j as int], resource@, action));
                    return true;
                }
                j += 1;
            }
            false
        },
    }
}

/// Whether any of the roles grants `action` on `resource`.
pub fn has_permission(roles: &Vec<Roles>, resource: &String, action: Action) -> (r: bool)
    ensures
        r == roles_grant(roles@, resource@, action),
{
    let mut i: usize = 0;
    while i < roles.len()
        invariant
            0 <= i <= roles@.len(),
            forall|k: int| 0 <= k < i ==> !role_grants(#[trigger] roles@[k], resource@, action),
        decreases roles@.len() - i,
    {
        if role_grants_exec(&roles[i], resource, action) {
            return true;
        }
        i += 1;
    }
    false
}

/// The user to look up for an identity; an id that names no document cannot
/// belong to a user.
pub fn user_to_load(identity: &Identity) -> (r: Result<DocId, ApiError>)
    ensures
        r is Ok <==> is_object_id_hex(identity.user_id@),
        r matches Ok(d) ==> d@ == lower_hex(identity.user_id@),
        r matches Err(e) ==> e == ApiError::Unauthorized(AuthFailure::UnknownUser),
{
    match DocId::parse(identity.user_id.as_str()) {
        Some(d) => Ok(d),
        None => Err(ApiError::Unauthorized(AuthFailure::UnknownUser)),
    }
}

/// The step that follows a successful user lookup.
#[derive(Clone, Debug)]
pub enum AdminStep {
    /// The route demands nothing more: let the request through.
    Proceed,
    /// Load these roles and hand them to `check_roles`.
    LoadRoles(Vec<DocId>),
}

/// The authorization guard: it runs after the identity guard, and lets a
/// request through only if its user still exists and, where the route names
/// a requirement, one of the user's roles grants it.
pub struct AdminMiddleware {
    pub requirement: Option<Requirement>,
}

/// The guard for one route.
pub struct AdminMiddlewareService {
    pub requirement: Option<Requirement>,
}

impl AdminMiddleware {
    pub fn new_transform(&self) -> (r: AdminMiddlewareService)
        ensures
            r.requirement is None <==> self.requirement is None,
            r.requirement matches Some(q) ==> self.requirement matches Some(p) && q.resource@ == p.resource@ && q.action == p.action,
    {
        let requirement = match &self.requirement {
            Some(p) => Some(Requirement { resource: p.resource.clone(), action: p.action }),
            None => None,
        };
        AdminMiddlewareService { requirement }
    }
}

impl AdminMiddlewareService {
    /// Decides on the outcome of the user lookup: a store failure is 500, a
    /// user that no longer exists is 401.
    pub fn check_user(&self, found: Result<Option<User>, StoreFault>) -> (r: Result<AdminStep, ApiError>)
        ensures
            found is Err ==> r == Err::<AdminStep, _>(ApiError::Store),
            found matches Ok(None) ==> r == Err::<AdminStep, _>(ApiError::Unauthorized(AuthFailure::UnknownUser)),
            found matches Ok(Some(u)) ==> match self.requirement {
                None => r matches Ok(AdminStep::Proceed),
                Some(_) => r matches Ok(AdminStep::LoadRoles(ids)) && ids@ == match u.roles {
                    Some(rs) => rs@,
                    None => Seq::empty(),
                },
            },
    {
        match found {
            Err(_) => Err(ApiError::Store),
            Ok(None) => Err(ApiError::Unauthorized(AuthFailure::UnknownUser)),
            Ok(Some(user)) => match &self.requirement {
                None => Ok(AdminStep::Proceed),
                Some(_) => match user.roles {
                    Some(ids) => Ok(AdminStep::LoadRoles(ids)),
                    None => Ok(AdminStep::LoadRoles(Vec::new())),
                },
            },
        }
    }

    /// Decides on the user's roles: 403 unless one of them grants the route's
    /// requirement; a store failure is 500, not a denial.
    pub fn check_roles(&self, roles: Result<Vec<Roles>, StoreFault>) -> (r: Result<(), ApiError>)
        ensures
            roles is Err ==> r == Err::<(), _>(ApiError::Store),
            roles matches Ok(rs) ==> match self.requirement {
                None => r is Ok,
                Some(q) => if roles_grant(rs@, q.resource@, q.action) {
                    r is Ok
                } else {
                    r == Err::<(), _>(ApiError::Forbidden)
                },
            },
    {
        match roles {
            Err(_) => Err(ApiError::Store),
            Ok(rs) => match &self.requirement {
                None => Ok(()),
                Some(q) => {
                    if has_permission(&rs, &q.resource, q.action) {
                        Ok(())
                    } else {
                        Err(ApiError::Forbidden)
                    }
                },
            },
        }
    }
}

} // verus!
