use lab_services::api::auth::hash_password;
use lab_services::api::error::{ApiError, AuthError, Entity, RepoError};
use lab_services::api::initial_users;
use lab_services::api::user::user_repo;
use lab_services::api::user::user_service;
use lab_services::api::user::{CreateUserDto, LoginUserDto, Role, UpdateUserDto, User, UserDto};

const ABC: &str = "b751850b1a57168a5693cd924b6b096e08f621827444f70d884f5d0240d2712e10e116e9192af3c91a7ec57647e3934057340b4cf408d5a56592f8274eec53f0";
const EMPTY: &str = "a69f73cca23a9ac5c8b567dc185a756e97c982164fe25859e0d1dcc1475c80a615b2123af1f5f94c11e3e9402c3ac558f500199d95b6d3e301758586281dcd26";

fn user(id: u64, name: &str, password: &str, roles: Vec<Role>) -> User {
    User { id, username: name.to_string(), password: hash_password(password), desc: None, roles }
}

fn create(name: &str, password: &str, roles: Vec<Role>) -> CreateUserDto {
    CreateUserDto { username: name.to_string(), password: password.to_string(), desc: Some("d".to_string()), roles }
}

#[test]
fn password_digest_is_sha3_512_in_lower_hex() {
    assert_eq!(hash_password("abc"), ABC);
    assert_eq!(hash_password(""), EMPTY);
    assert_eq!(hash_password("abc").len(), 128);
}

#[test]
fn role_names() {
    assert_eq!(Role::User.as_ref(), "User");
    assert_eq!(Role::Admin.as_ref(), "Admin");
    assert_eq!(Entity::User.as_ref(), "User");
}

#[test]
fn service_starts_with_a_user_and_an_admin() {
    let users = initial_users();
    assert_eq!(users.len(), 2);
    assert_eq!((users[0].id, users[0].username.as_str()), (0, "user"));
    assert_eq!(users[0].password, hash_password("user"));
    assert_eq!(users[0].desc.as_deref(), Some("Some description"));
    assert_eq!(users[0].roles, vec![Role::User]);
    assert_eq!((users[1].id, users[1].username.as_str()), (1, "admin"));
    assert_eq!(users[1].password, hash_password("admin"));
    assert_eq!(users[1].desc, None);
    assert_eq!(users[1].roles, vec![Role::Admin]);
}

#[test]
fn conversions_between_account_and_its_outside_form() {
    let stored = User {
        id: 7,
        username: "n".to_string(),
        password: "secret".to_string(),
        desc: Some("d".to_string()),
        roles: vec![Role::Admin, Role::User],
    };
    let dto = UserDto::from(stored.clone());
    assert_eq!((dto.id, dto.username.as_str(), dto.desc.as_deref()), (7, "n", Some("d")));
    assert_eq!(dto.roles, vec![Role::Admin, Role::User]);
    let back = User::from(dto.clone());
    assert_eq!((back.id, back.username.as_str(), back.password.as_str()), (7, "n", ""));
    assert_eq!(back.desc.as_deref(), Some("d"));
    assert_eq!(back.roles, vec![Role::Admin, Role::User]);
    let fresh = User::default();
    assert_eq!((fresh.id, fresh.username.as_str(), fresh.password.as_str()), (0, "", ""));
    assert!(fresh.desc.is_none() && fresh.roles.is_empty());
}

#[test]
fn next_id_is_one_above_the_largest_but_zero_stays_zero() {
    assert_eq!(user_repo::get_id(&[]).unwrap(), 0);
    assert_eq!(user_repo::get_id(&[user(0, "a", "p", vec![])]).unwrap(), 0);
    assert_eq!(user_repo::get_id(&[user(0, "a", "p", vec![]), user(1, "b", "p", vec![])]).unwrap(), 2);
    assert_eq!(user_repo::get_id(&[user(9, "a", "p", vec![]), user(4, "b", "p", vec![])]).unwrap(), 10);
    assert_eq!(user_repo::get_id(&[user(u64::MAX - 1, "a", "p", vec![])]).unwrap(), u64::MAX);
}

#[test]
fn list_shows_every_account_without_its_password() {
    let users = initial_users();
    let listed = user_repo::list_users(&users).unwrap();
    assert_eq!(listed.len(), 2);
    assert_eq!((listed[0].id, listed[0].username.as_str()), (0, "user"));
    assert_eq!((listed[1].id, listed[1].username.as_str()), (1, "admin"));
    let through_service = user_service::list_users(&users).unwrap();
    assert_eq!(through_service.len(), 2);
    assert_eq!(through_service[1].roles, vec![Role::Admin]);
}

#[test]
fn create_keeps_the_account_with_the_digest_and_the_next_id() {
    let mut users = initial_users();
    let made = user_repo::create_user(&mut users, create("carol", "abc", vec![Role::User])).unwrap();
    assert_eq!((made.id, made.username.as_str(), made.desc.as_deref()), (2, "carol", Some("d")));
    assert_eq!(users.len(), 3);
    assert_eq!(users[2].password, ABC);
    assert_eq!(users[2].roles, vec![Role::User]);
}

#[test]
fn create_refuses_a_held_name_before_it_looks_at_the_roles() {
    let mut users = initial_users();
    let refused = user_repo::create_user(&mut users, create("admin", "x", vec![]));
    match refused {
        Err(RepoError::AlreadyExist(Entity::User, field)) => assert_eq!(field, "username"),
        other => panic!("{:?}", other),
    }
    assert_eq!(users.len(), 2);
}

#[test]
fn create_refuses_an_account_without_roles() {
    let mut users = initial_users();
    match user_repo::create_user(&mut users, create("dave", "x", vec![])) {
        Err(RepoError::Missing(Entity::User, field)) => assert_eq!(field, "roles"),
        other => panic!("{:?}", other),
    }
    assert_eq!(users.len(), 2);
    match user_service::create_user(&mut users, create("dave", "x", vec![])) {
        Err(ApiError::Repository(RepoError::Missing(Entity::User, field))) => assert_eq!(field, "roles"),
        other => panic!("{:?}", other),
    }
    let made = user_service::create_user(&mut users, create("dave", "x", vec![Role::Admin])).unwrap();
    assert_eq!(made.id, 2);
}

#[test]
fn lookup_by_predicate_takes_the_first_that_fits() {
    let users = vec![user(1, "a", "p", vec![]), user(2, "b", "p", vec![]), user(2, "c", "p", vec![])];
    let found = user_repo::get_user_entity(&users, |user: &User| user.id == 2).unwrap();
    assert_eq!(found.username, "b");
    assert!(matches!(
        user_repo::get_user_entity(&users, |user: &User| user.id == 3),
        Err(RepoError::NotFound(Entity::User))
    ));
    let shown = user_repo::get_user(&users, |dto: UserDto| dto.username == "c").unwrap();
    assert_eq!(shown.id, 2);
    assert!(matches!(user_repo::get_user(&users, |_dto: UserDto| false), Err(RepoError::NotFound(Entity::User))));
}

#[test]
fn delete_takes_out_every_account_with_the_id() {
    let mut users = vec![user(1, "a", "p", vec![]), user(2, "b", "p", vec![]), user(1, "c", "p", vec![])];
    let gone = user_repo::delete_user(&mut users, 1).unwrap();
    assert_eq!(gone.username, "a");
    assert_eq!(users.len(), 1);
    assert_eq!(users[0].username, "b");
    assert!(matches!(user_repo::delete_user(&mut users, 1), Err(RepoError::NotFound(Entity::User))));
    assert_eq!(users.len(), 1);
}

#[test]
fn update_changes_the_description_and_moves_the_account_to_the_end() {
    let mut users = initial_users();
    let changed =
        user_repo::update_user(&mut users, UpdateUserDto { id: Some(0), desc: Some("new".to_string()) }).unwrap();
    assert_eq!((changed.id, changed.username.as_str(), changed.desc.as_deref()), (0, "user", Some("new")));
    assert_eq!(users.len(), 2);
    assert_eq!(users[0].username, "admin");
    assert_eq!(users[1].username, "user");
    assert_eq!(users[1].desc.as_deref(), Some("new"));
    assert_eq!(users[1].password, hash_password("user"));
    let cleared = user_service::update_user(&mut users, UpdateUserDto { id: Some(1), desc: None }).unwrap();
    assert_eq!(cleared.desc, None);
    assert_eq!(users[1].username, "admin");
}

#[test]
fn update_without_id_or_account_fails() {
    let mut users = initial_users();
    assert!(matches!(
        user_repo::update_user(&mut users, UpdateUserDto { id: None, desc: None }),
        Err(RepoError::Internal)
    ));
    assert!(matches!(
        user_repo::update_user(&mut users, UpdateUserDto { id: Some(5), desc: None }),
        Err(RepoError::NotFound(Entity::User))
    ));
    assert!(matches!(
        user_service::update_user(&mut users, UpdateUserDto { id: Some(5), desc: None }),
        Err(ApiError::Repository(RepoError::NotFound(Entity::User)))
    ));
    assert_eq!(users[0].username, "user");
}

#[test]
fn hashed_password_of_a_name() {
    let users = initial_users();
    let (dto, digest) = user_repo::get_hashed_password(&users, "admin").unwrap();
    assert_eq!(dto.id, 1);
    assert_eq!(digest, hash_password("admin"));
    assert!(matches!(user_repo::get_hashed_password(&users, "Admin"), Err(RepoError::NotFound(Entity::User))));
}

#[test]
fn credentials_are_checked_against_the_digest() {
    let users = initial_users();
    let login = |name: &str, password: &str| LoginUserDto { username: name.to_string(), password: password.to_string() };
    let ok = user_service::validate_credentials(&users, login("user", "user")).unwrap();
    assert_eq!(ok.id, 0);
    match user_service::validate_credentials(&users, login("user", "abc")) {
        Err(ApiError::Authentication(AuthError::PasswordWrong(digest))) => assert_eq!(digest, ABC),
        other => panic!("{:?}", other),
    }
    assert!(matches!(
        user_service::validate_credentials(&users, login("nobody", "user")),
        Err(ApiError::Repository(RepoError::NotFound(Entity::User)))
    ));
}

#[test]
fn roles_are_checked_against_those_asked_for() {
    let users = initial_users();
    let ok = user_service::validate_roles(&users, "admin", &[Role::Admin, Role::User]).unwrap();
    assert_eq!(ok.username, "admin");
    match user_service::validate_roles(&users, "user", &[Role::Admin]) {
        Err(ApiError::Authentication(AuthError::InappropriateRole { user_roles, needed_roles })) => {
            assert_eq!(user_roles, vec![Role::User]);
            assert_eq!(needed_roles, vec![Role::Admin]);
        }
        other => panic!("{:?}", other),
    }
    assert!(matches!(
        user_service::validate_roles(&users, "user", &[]),
        Err(ApiError::Authentication(AuthError::InappropriateRole { .. }))
    ));
    assert!(matches!(
        user_service::validate_roles(&users, "ghost", &[Role::User]),
        Err(ApiError::Repository(RepoError::NotFound(Entity::User)))
    ));
    assert!(user_service::has_role(&vec![Role::User, Role::Admin], Role::Admin));
    assert!(!user_service::has_role(&vec![Role::User], Role::Admin));
    assert!(user_service::any_role(&vec![Role::User], &[Role::Admin, Role::User]));
    assert!(!user_service::any_role(&vec![], &[Role::Admin, Role::User]));
}
