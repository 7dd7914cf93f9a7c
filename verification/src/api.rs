pub mod auth;
pub mod error;
pub mod jwt;
pub mod user;
pub mod utils;

use crate::api::auth::{hash_password, sha3_512_hex};
use crate::api::user::{Role, User, UserView};
use vstd::prelude::*;
use vstd::string::StringExecFns;

verus! {

/// The accounts that the service starts with: a plain user and an administrator, each with
/// its own name as password.
pub fn initial_users() -> (users: Vec<User>)
    ensures
        users@.len() == 2,
        users@[0]@ == (UserView {
            id: 0,
            username: "user"@,
            password: sha3_512_hex("user"@),
            desc: Some("Some description"@),
            roles: seq![Role::User],
        }),
        users@[1]@ == (UserView {
            id: 1,
            username: "admin"@,
            password: sha3_512_hex("admin"@),
            desc: None,
            roles: seq![Role::Admin],
        }),
{
    let mut user_roles: Vec<Role> = Vec::new();
    user_roles.push(Role::User);
    let mut admin_roles: Vec<Role> = Vec::new();
    admin_roles.push(Role::Admin);
    let mut users: Vec<User> = Vec::new();
    users.push(
        User {
            id: 0,
            username: String::from_str("user"),
            password: hash_password("user"),
            desc: Some(String::from_str("Some description")),
            roles: user_roles,
        },
    );
    users.push(
        User {
            id: 1,
            username: String::from_str("admin"),
            password: hash_password("admin"),
            desc: None,
            roles: admin_roles,
        },
    );
    users
}

} // verus!
