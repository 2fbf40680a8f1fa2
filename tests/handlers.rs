use auth_service::admin_middleware::{user_to_load, AdminMiddleware, AdminStep};
use auth_service::auth_middleware::AuthMiddleWare;
use auth_service::credentials::verify_password;
use auth_service::error::{ApiError, AuthFailure, StoreFault};
use auth_service::handlers::{create_admin_role, get_data, insert_reply, login, register, InsertOutcome};
use auth_service::ids::DocId;
use auth_service::models::{LoginUser, Roles, User};
use auth_service::tokens::TokenService;

const NOW: i64 = 1_700_000_000;

fn tokens() -> TokenService {
    match TokenService::new(Some(b"handler key".to_vec())) {
        Ok(t) => t,
        Err(_) => panic!("a non-empty key is accepted"),
    }
}

fn new_user(email: &str, password: &str) -> User {
    User {
        id: None,
        username: "a".to_string(),
        full_name: "Alice Example".to_string(),
        email: email.to_string(),
        password: password.to_string(),
        phone_number: "+15550100".to_string(),
        roles: None,
    }
}

fn find_by_email(store: &[User], email: &str) -> Option<User> {
    store.iter().find(|u| u.email == email).cloned()
}

fn find_by_id(store: &[User], id: &DocId) -> Option<User> {
    store.iter().find(|u| u.id.as_ref() == Some(id)).cloned()
}

#[test]
fn register_login_me_scenario() {
    let tokens = tokens();
    let mut store: Vec<User> = Vec::new();

    let mut stored = register(new_user("a@x.com", "secret123")).unwrap();
    assert_ne!(stored.password, "secret123");
    assert_eq!(verify_password("secret123", &stored.password), Ok(true));
    stored.id = DocId::parse("65a1f0c2b3d4e5f607182930");
    store.push(stored);

    let credentials = LoginUser { email: "a@x.com".to_string(), password: "secret123".to_string() };
    let token = login(&credentials, Ok(find_by_email(&store, "a@x.com")), &tokens, NOW).unwrap();

    let header = format!("Bearer {}", token);
    let identity = AuthMiddleWare.new_transform(tokens).call(Some(&header), NOW + 5).unwrap();
    let id = user_to_load(&identity).unwrap();
    let guard = AdminMiddleware { requirement: None }.new_transform();
    assert!(matches!(guard.check_user(Ok(find_by_id(&store, &id))), Ok(AdminStep::Proceed)));

    let profile = get_data(Ok(find_by_id(&store, &id))).unwrap();
    assert_eq!(profile.id.as_deref(), Some("65a1f0c2b3d4e5f607182930"));
    assert_eq!(profile.full_name, "Alice Example");
    assert_eq!(profile.email, "a@x.com");
    assert_eq!(profile.phone_number, "+15550100");
    let shown = format!("{:?}", profile);
    assert!(!shown.contains("argon2"));
    assert!(!shown.contains("secret123"));
}

#[test]
fn register_requires_every_field() {
    assert_eq!(register(new_user("", "secret123")).err(), Some(ApiError::Validation));
    assert_eq!(register(new_user("a@x.com", "")).err(), Some(ApiError::Validation));
    let no_phone = User { phone_number: String::new(), ..new_user("a@x.com", "secret123") };
    assert_eq!(register(no_phone).err(), Some(ApiError::Validation));
    assert_eq!(ApiError::Validation.status(), 400);
}

#[test]
fn register_keeps_other_fields() {
    let stored = register(new_user("a@x.com", "secret123")).unwrap();
    assert!(stored.password.starts_with("$argon2id$v=19$m=19456,t=2,p=1$"));
    assert_eq!(stored.username, "a");
    assert_eq!(stored.email, "a@x.com");
    assert_eq!(stored.full_name, "Alice Example");
    assert!(stored.id.is_none());
    assert!(stored.roles.is_none());
}

#[test]
fn login_failures_look_alike() {
    let tokens = tokens();
    let mut stored = register(new_user("a@x.com", "secret123")).unwrap();
    stored.id = DocId::parse("65a1f0c2b3d4e5f607182930");
    let wrong = LoginUser { email: "a@x.com".to_string(), password: "nope".to_string() };
    let unknown = LoginUser { email: "b@x.com".to_string(), password: "secret123".to_string() };
    let e1 = login(&wrong, Ok(Some(stored)), &tokens, NOW).err().unwrap();
    let e2 = login(&unknown, Ok(None), &tokens, NOW).err().unwrap();
    assert_eq!(e1, ApiError::Unauthorized(AuthFailure::BadCredentials));
    assert_eq!(e1, e2);
    assert_eq!(e1.message(), e2.message());
    assert_eq!(e1.status(), 401);
}

#[test]
fn login_store_failures_are_500() {
    let tokens = tokens();
    let credentials = LoginUser { email: "a@x.com".to_string(), password: "secret123".to_string() };
    assert_eq!(login(&credentials, Err(StoreFault), &tokens, NOW).err(), Some(ApiError::Store));
    let corrupt = User { password: "plain".to_string(), ..new_user("a@x.com", "secret123") };
    assert_eq!(login(&credentials, Ok(Some(corrupt)), &tokens, NOW).err(), Some(ApiError::Store));
    assert_eq!(ApiError::Store.status(), 500);
}

#[test]
fn me_for_missing_user_is_unauthorized() {
    assert_eq!(get_data(Ok(None)).err(), Some(ApiError::Unauthorized(AuthFailure::UnknownUser)));
    assert_eq!(get_data(Err(StoreFault)).err(), Some(ApiError::Store));
}

#[test]
fn second_admin_role_is_a_conflict() {
    let mut roles: Vec<Roles> = Vec::new();
    let exists = |roles: &Vec<Roles>| roles.iter().any(|r| r.role_name == "Administrator");
    let first = create_admin_role(Ok(exists(&roles))).unwrap();
    assert_eq!(first.role_name, "Administrator");
    assert!(first.models.is_none());
    roles.push(first);
    let second = create_admin_role(Ok(exists(&roles)));
    assert_eq!(second.err(), Some(ApiError::Conflict));
    assert_eq!(ApiError::Conflict.status(), 409);
    assert_eq!(roles.len(), 1);
    assert_eq!(create_admin_role(Err(StoreFault)).err(), Some(ApiError::Store));
}

#[test]
fn insert_outcomes_map_to_statuses() {
    assert_eq!(insert_reply(InsertOutcome::Inserted), Ok(()));
    assert_eq!(insert_reply(InsertOutcome::Duplicate), Err(ApiError::Conflict));
    assert_eq!(insert_reply(InsertOutcome::Failed), Err(ApiError::Store));
}

#[test]
fn defaults_are_empty() {
    let user = User::default();
    assert!(user.id.is_none() && user.roles.is_none() && user.email.is_empty());
    let role = Roles::default();
    assert!(role.role_name.is_empty());
    assert_eq!(role.models.map(|m| m.len()), Some(0));
    assert_eq!(ApiError::NotFound.status(), 404);
    assert_eq!(ApiError::Config.status(), 500);
}
