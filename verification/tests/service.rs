use spotitube_auth::argon_security_service::ArgonSecurityService;
use spotitube_auth::config::AppConfig;
use spotitube_auth::errors::SpotitubeError;
use spotitube_auth::jwt_service::JwtService;
use spotitube_auth::repository::UserStore;
use spotitube_auth::requests::{LoginUserDto, RegisterUserDto};
use spotitube_auth::user_id::UserId;
use spotitube_auth::users_service::SpotitubeUsersService;

fn service() -> SpotitubeUsersService {
    let config = AppConfig::new(String::from("test-secret"), String::from("testsalt"));
    SpotitubeUsersService::new(
        UserStore::new(),
        ArgonSecurityService::new(config.clone()),
        JwtService::new(config),
    )
}

fn register_dto(username: &str, password: &str) -> RegisterUserDto {
    RegisterUserDto {
        username: Some(String::from(username)),
        password: Some(String::from(password)),
    }
}

fn login_dto(username: &str, password: &str) -> LoginUserDto {
    LoginUserDto {
        username: Some(String::from(username)),
        password: Some(String::from(password)),
    }
}

#[test]
fn registration_unique_and_second_conflicts() {
    let mut svc = service();
    let first = svc.register_user(register_dto("alice", "password123")).unwrap();
    assert_eq!(first.username, "alice");
    assert!(!first.token.is_empty());
    let second = svc.register_user(register_dto("alice", "password456"));
    assert!(matches!(second, Err(SpotitubeError::Conflict(_))));
}

#[test]
fn login_after_register_succeeds_with_same_identity() {
    let mut svc = service();
    let registered = svc.register_user(register_dto("bob", "secretpw1")).unwrap();
    let logged_in = svc.login_user(login_dto("bob", "secretpw1")).unwrap();
    assert_eq!(logged_in.id, registered.id);
    assert_eq!(logged_in.username, "bob");
    assert!(!logged_in.token.is_empty());
    let jwt = JwtService::new(AppConfig::new(String::from("test-secret"), String::from("testsalt")));
    let from_register = jwt.get_user_id_from_token(registered.token).unwrap();
    let from_login = jwt.get_user_id_from_token(logged_in.token).unwrap();
    assert_eq!(from_register, from_login);
    assert_eq!(from_login, registered.id);
}

#[test]
fn login_unknown_user_fails_not_found() {
    let svc = service();
    let r = svc.login_user(login_dto("ghost", "whatever1"));
    assert!(matches!(r, Err(SpotitubeError::NotFound(_))));
}

#[test]
fn login_wrong_password_fails_invalid_password() {
    let mut svc = service();
    svc.register_user(register_dto("carol", "correctpw")).unwrap();
    let r = svc.login_user(login_dto("carol", "wrongpw12"));
    assert!(matches!(r, Err(SpotitubeError::InvalidPassword)));
}

#[test]
fn get_user_repeated_returns_same_identity() {
    let mut svc = service();
    let registered = svc.register_user(register_dto("dave", "password123")).unwrap();
    let first = svc.get_user(registered.id).unwrap();
    let second = svc.get_user(registered.id).unwrap();
    assert_eq!(first.id, registered.id);
    assert_eq!(second.id, registered.id);
    assert_eq!(first.username, "dave");
    assert_eq!(second.username, "dave");
    assert!(!first.token.is_empty());
    assert!(!second.token.is_empty());
}

#[test]
fn get_user_unknown_id_fails_not_found() {
    let svc = service();
    let r = svc.get_user(UserId { value: 99 });
    assert!(matches!(r, Err(SpotitubeError::NotFound(_))));
}

#[test]
fn register_with_colliding_id_is_internal_error() {
    let mut svc = service();
    let id = UserId { value: 7 };
    svc.register_user_with_id(register_dto("erin", "password123"), id).unwrap();
    let r = svc.register_user_with_id(register_dto("frank", "password123"), id);
    assert!(matches!(r, Err(SpotitubeError::InternalServerError)));
}

#[test]
fn store_lookup_finds_created_user() {
    let mut store = UserStore::new();
    let created = store
        .create_user(&String::from("gina"), &String::from("hash-value"), UserId { value: 3 })
        .unwrap();
    assert_eq!(created.username, "gina");
    let by_name = store.get_user_by_username(&String::from("gina")).unwrap();
    assert_eq!(by_name.id, created.id);
    let by_id = store.get_user_by_id(UserId { value: 3 }).unwrap();
    assert_eq!(by_id.username, "gina");
    assert!(store.get_user_by_username(&String::from("nobody")).is_none());
    assert!(store.get_user_by_id(UserId { value: 4 }).is_none());
}

#[test]
fn store_rejects_duplicate_username() {
    let mut store = UserStore::new();
    store
        .create_user(&String::from("henry"), &String::from("hash-one"), UserId { value: 1 })
        .unwrap();
    let r = store.create_user(&String::from("henry"), &String::from("hash-two"), UserId {
        value: 2,
    });
    assert!(matches!(r, Err(SpotitubeError::Conflict(_))));
}
