pub mod user_repo;
pub mod user_service;

use vstd::prelude::*;
use vstd::std_specs::convert::FromSpecImpl;

verus! {

/// What an account may do.
#[derive(Debug, Clone, Copy, PartialEq, Eq, Structural)]
pub enum Role {
    User,
    Admin,
}

impl Role {
    /// The role's name as it is written into tokens and messages.
    pub open spec fn label(self) -> Seq<char> {
        match self {
            Role::User => "User"@,
            Role::Admin => "Admin"@,
        }
    }

    /// The role's name as it is written into tokens and messages.
    pub fn as_ref(&self) -> (name: &'static str)
        ensures
            name@ == self.label(),
    {
        match self {
            Role::User => "User",
            Role::Admin => "Admin",
        }
    }
}

/// An account as its contracts see it.
pub struct UserView {
    pub id: u64,
    pub username: Seq<char>,
    pub password: Seq<char>,
    pub desc: Option<Seq<char>>,
    pub roles: Seq<Role>,
}

/// An account as it is shown to the outside, seen by its contracts: no password.
pub struct UserDtoView {
    pub id: u64,
    pub username: Seq<char>,
    pub desc: Option<Seq<char>>,
    pub roles: Seq<Role>,
}

impl UserView {
    /// This account as it is shown to the outside.
    pub open spec fn dto(self) -> UserDtoView {
        UserDtoView { id: self.id, username: self.username, desc: self.desc, roles: self.roles }
    }
}

impl UserDtoView {
    /// The account that this one stands for, with an empty password.
    pub open spec fn entity(self) -> UserView {
        UserView {
            id: self.id,
            username: self.username,
            password: Seq::empty(),
            desc: self.desc,
            roles: self.roles,
        }
    }
}

/// A text that may be missing, seen as characters.
pub open spec fn text_view(text: Option<String>) -> Option<Seq<char>> {
    match text {
        Some(text) => Some(text@),
        None => None,
    }
}

/// The views of a run of accounts, in the same order.
pub open spec fn user_views(users: Seq<User>) -> Seq<UserView> {
    users.map_values(|user: User| user@)
}

/// The outside views of a run of accounts, in the same order.
pub open spec fn dto_views(dtos: Seq<UserDto>) -> Seq<UserDtoView> {
    dtos.map_values(|dto: UserDto| dto@)
}

/// An account as it is stored. The password is held as its digest.
#[derive(Debug)]
pub struct User {
    pub id: u64,
    pub username: String,
    pub password: String,
    pub desc: Option<String>,
    pub roles: Vec<Role>,
}

impl View for User {
    type V = UserView;

    open spec fn view(&self) -> UserView {
        UserView {
            id: self.id,
            username: self.username@,
            password: self.password@,
            desc: text_view(self.desc),
            roles: self.roles@,
        }
    }
}

/// An account as it is shown to the outside.
#[derive(Debug)]
pub struct UserDto {
    pub id: u64,
    pub username: String,
    pub desc: Option<String>,
    pub roles: Vec<Role>,
}

impl View for UserDto {
    type V = UserDtoView;

    open spec fn view(&self) -> UserDtoView {
        UserDtoView { id: self.id, username: self.username@, desc: text_view(self.desc), roles: self.roles@ }
    }
}

/// A second text equal to `text`, where there is one.
pub fn clone_text(text: &Option<String>) -> (copy: Option<String>)
    ensures
        text_view(copy) == text_view(*text),
{
    match text {
        Some(text) => Some(text.clone()),
        None => None,
    }
}

/// A second list with the same roles in the same order.
pub fn clone_roles(roles: &[Role]) -> (copy: Vec<Role>)
    ensures
        copy@ == roles@,
{
    let mut copy: Vec<Role> = Vec::new();
    let mut at: usize = 0;
    while at < roles.len()
        invariant
            at <= roles.len(),
            copy@ == roles@.take(at as int),
        decreases roles.len() - at,
    {
        copy.push(roles[at]);
        proof {
            assert(copy@ =~= roles@.take(at as int + 1));
        }
        at = at + 1;
    }
    proof {
        assert(roles@.take(at as int) =~= roles@);
    }
    copy
}

impl Clone for User {
    fn clone(&self) -> (copy: User)
        ensures
            copy@ == self@,
    {
        User {
            id: self.id,
            username: self.username.clone(),
            password: self.password.clone(),
            desc: clone_text(&self.desc),
            roles: clone_roles(&self.roles),
        }
    }
}

impl Clone for UserDto {
    fn clone(&self) -> (copy: UserDto)
        ensures
            copy@ == self@,
    {
        UserDto {
            id: self.id,
            username: self.username.clone(),
            desc: clone_text(&self.desc),
            roles: clone_roles(&self.roles),
        }
    }
}

impl Default for User {
    fn default() -> (user: User)
        ensures
            user@ == (UserView {
                id: 0,
                username: Seq::empty(),
                password: Seq::empty(),
                desc: None,
                roles: Seq::empty(),
            }),
    {
        User { id: 0, username: String::new(), password: String::new(), desc: None, roles: Vec::new() }
    }
}

impl FromSpecImpl<UserDto> for User {
    open spec fn obeys_from_spec() -> bool {
        false
    }

    open spec fn from_spec(dto: UserDto) -> User {
        arbitrary()
    }
}

impl From<UserDto> for User {
    fn from(dto: UserDto) -> (user: User)
        ensures
            user@ == dto@.entity(),
    {
        User { id: dto.id, username: dto.username, password: String::new(), desc: dto.desc, roles: dto.roles }
    }
}

impl FromSpecImpl<User> for UserDto {
    open spec fn obeys_from_spec() -> bool {
        true
    }

    open spec fn from_spec(user: User) -> UserDto {
        UserDto { id: user.id, username: user.username, desc: user.desc, roles: user.roles }
    }
}

impl From<User> for UserDto {
    fn from(user: User) -> (dto: UserDto)
        ensures
            dto@ == user@.dto(),
    {
        UserDto { id: user.id, username: user.username, desc: user.desc, roles: user.roles }
    }
}

/// What a caller sends to log in.
#[derive(Debug)]
pub struct LoginUserDto {
    pub username: String,
    pub password: String,
}

/// What a caller sends to make an account.
#[derive(Debug)]
pub struct CreateUserDto {
    pub username: String,
    pub password: String,
    pub desc: Option<String>,
    pub roles: Vec<Role>,
}

/// What a caller sends to change an account's description.
#[derive(Debug)]
pub struct UpdateUserDto {
    pub id: Option<u64>,
    pub desc: Option<String>,
}

} // verus!
