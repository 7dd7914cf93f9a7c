use crate::api::auth::{hash_password, sha3_512_hex};
use crate::api::error::{ApiError, AuthError, Entity, RepoError};
use crate::api::user::user_repo::{
    called, create_user_post, first_at, judged, max_id, none_meets, password_post, update_user_post,
};
use crate::api::user::{
    clone_roles, dto_views, user_views, CreateUserDto, LoginUserDto, Role, UpdateUserDto, User, UserDto, UserView,
};
use crate::api::user::user_repo;
use vstd::prelude::*;
use vstd::string::StringExecFns;

verus! {

/// The repository's outcome behind an outcome of the service, where there is one.
pub open spec fn behind<T>(outcome: Result<T, ApiError>) -> Option<Result<T, RepoError>> {
    match outcome {
        Ok(value) => Some(Ok(value)),
        Err(ApiError::Repository(error)) => Some(Err(error)),
        Err(_) => None,
    }
}

/// A role of `wanted` is among `had`.
pub open spec fn shares_role(had: Seq<Role>, wanted: Seq<Role>) -> bool {
    exists|i: int, j: int| 0 <= i < wanted.len() && 0 <= j < had.len() && wanted[i] == had[j]
}

/// What checking a password comes to: the first account called by the name, as shown to
/// the outside, where the digest of the password is the one kept; else the error that
/// carries the digest that did not fit; or there is no such account.
pub open spec fn credentials_post(users: Seq<UserView>, request: LoginUserDto, outcome: Result<UserDto, ApiError>) -> bool {
    match outcome {
        Ok(dto) => exists|at: int|
            {
                &&& first_at(users, called(request.username@), at)
                &&& dto@ == (#[trigger] users[at]).dto()
                &&& users[at].password == sha3_512_hex(request.password@)
            },
        Err(ApiError::Authentication(AuthError::PasswordWrong(digest))) => exists|at: int|
            {
                &&& first_at(users, called(request.username@), at)
                &&& (#[trigger] users[at]).password != sha3_512_hex(request.password@)
                &&& digest@ == sha3_512_hex(request.password@)
            },
        Err(ApiError::Repository(RepoError::NotFound(Entity::User))) => none_meets(
            users,
            called(request.username@),
        ),
        Err(_) => false,
    }
}

/// What checking the roles of a caller comes to: the first account called `username`, as
/// shown to the outside, where it has one of the roles `expected`; else the error that
/// carries its roles and those asked for; or there is no such account.
pub open spec fn roles_post(
    users: Seq<UserView>,
    username: Seq<char>,
    expected: Seq<Role>,
    outcome: Result<UserDto, ApiError>,
) -> bool {
    match outcome {
        Ok(dto) => exists|at: int|
            {
                &&& first_at(users, called(username), at)
                &&& dto@ == (#[trigger] users[at]).dto()
                &&& shares_role(users[at].roles, expected)
            },
        Err(ApiError::Authentication(AuthError::InappropriateRole { user_roles, needed_roles })) => exists|at: int|
            {
                &&& first_at(users, called(username), at)
                &&& !shares_role((#[trigger] users[at]).roles, expected)
                &&& user_roles@ == users[at].roles
                &&& needed_roles@ == expected
            },
        Err(ApiError::Repository(RepoError::NotFound(Entity::User))) => none_meets(users, called(username)),
        Err(_) => false,
    }
}

/// All the accounts, as they are shown to the outside.
pub fn list_users(users: &Vec<User>) -> (listed: Result<Vec<UserDto>, ApiError>)
    ensures
        listed matches Ok(dtos) && dto_views(dtos@) == user_views(users@).map_values(|user: UserView| user.dto()),
{
    match user_repo::list_users(users) {
        Ok(dtos) => Ok(dtos),
        Err(error) => Err(ApiError::Repository(error)),
    }
}

/// Makes an account.
pub fn create_user(users: &mut Vec<User>, create_user_dto: CreateUserDto) -> (created: Result<UserDto, ApiError>)
    requires
        max_id(user_views(old(users)@)) < u64::MAX,
    ensures
        behind(created) matches Some(inner) && create_user_post(
            user_views(old(users)@),
            create_user_dto,
            user_views(final(users)@),
            inner,
        ),
        created is Err ==> final(users)@ == old(users)@,
{
    match user_repo::create_user(users, create_user_dto) {
        Ok(dto) => Ok(dto),
        Err(error) => Err(ApiError::Repository(error)),
    }
}

/// Checks the password that a caller logs in with.
pub fn validate_credentials(users: &Vec<User>, login: LoginUserDto) -> (outcome: Result<UserDto, ApiError>)
    ensures
        credentials_post(user_views(users@), login, outcome),
{
    let LoginUserDto { username, password } = login;
    match user_repo::get_hashed_password(users, username.as_str()) {
        Ok((dto, stored_password)) => {
            let digest = hash_password(password.as_str());
            if !(stored_password == digest) {
                Err(ApiError::Authentication(AuthError::PasswordWrong(digest)))
            } else {
                Ok(dto)
            }
        },
        Err(error) => Err(ApiError::Repository(error)),
    }
}

/// Whether the role `wanted` is among `had`.
pub fn has_role(had: &Vec<Role>, wanted: Role) -> (found: bool)
    ensures
        found == (exists|j: int| 0 <= j < had.len() && had[j] == wanted),
{
    let mut at: usize = 0;
    while at < had.len()
        invariant
            at <= had.len(),
            forall|j: int| 0 <= j < at ==> had[j] != wanted,
        decreases had.len() - at,
    {
        if had[at] == wanted {
            return true;
        }
        at = at + 1;
    }
    false
}

/// Whether a role of `wanted` is among `had`.
pub fn any_role(had: &Vec<Role>, wanted: &[Role]) -> (found: bool)
    ensures
        found == shares_role(had@, wanted@),
{
    let mut at: usize = 0;
    while at < wanted.len()
        invariant
            at <= wanted.len(),
            forall|i: int, j: int| 0 <= i < at && 0 <= j < had.len() ==> wanted[i] != had[j],
        decreases wanted.len() - at,
    {
        if has_role(had, wanted[at]) {
            return true;
        }
        at = at + 1;
    }
    false
}

/// Checks that the caller called `username` has one of the roles `expected_roles`.
pub fn validate_roles(users: &Vec<User>, username: &str, expected_roles: &[Role]) -> (outcome: Result<
    UserDto,
    ApiError,
>)
    ensures
        roles_post(user_views(users@), username@, expected_roles@, outcome),
{
    let wanted = String::from_str(username);
    let by_name = |dto: UserDto| -> (hit: bool)
        ensures
            hit == (dto.username@ == wanted@),
        {
            let hit = dto.username == wanted;
            hit
        };
    match user_repo::get_user(users, by_name) {
        Ok(user) => {
            proof {
                let at = choose|at: int|
                    {
                        &&& 0 <= at < users.len()
                        &&& user@ == (#[trigger] users[at])@.dto()
                        &&& judged(by_name, users[at]@, true)
                        &&& forall|before: int|
                            0 <= before < at ==> judged(by_name, (#[trigger] users[before])@, false)
                    };
                assert(first_at(user_views(users@), called(username@), at)) by {
                    assert forall|before: int| 0 <= before < at implies !called(username@)(
                        #[trigger] user_views(users@)[before],
                    ) by {
                        assert(judged(by_name, users[before]@, false));
                    }
                }
                assert(user@ == user_views(users@)[at].dto());
            }
            if !any_role(&user.roles, expected_roles) {
                Err(
                    ApiError::Authentication(
                        AuthError::InappropriateRole {
                            user_roles: user.roles,
                            needed_roles: clone_roles(expected_roles),
                        },
                    ),
                )
            } else {
                Ok(user)
            }
        },
        Err(error) => {
            proof {
                assert forall|at: int| 0 <= at < users.len() implies !called(username@)(
                    #[trigger] user_views(users@)[at],
                ) by {
                    assert(judged(by_name, users[at]@, false));
                }
            }
            Err(ApiError::Repository(error))
        },
    }
}

/// Changes an account's description.
pub fn update_user(users: &mut Vec<User>, update_user_dto: UpdateUserDto) -> (updated: Result<UserDto, ApiError>)
    ensures
        behind(updated) matches Some(inner) && update_user_post(
            user_views(old(users)@),
            update_user_dto,
            user_views(final(users)@),
            inner,
        ),
        updated is Err ==> final(users)@ == old(users)@,
{
    match user_repo::update_user(users, update_user_dto) {
        Ok(dto) => Ok(dto),
        Err(error) => Err(ApiError::Repository(error)),
    }
}

} // verus!
