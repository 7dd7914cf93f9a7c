use crate::api::error::{ApiError, AuthError};
use crate::api::jwt::{make_claims, Claims, ClaimsView, MAX_DURATION};
use crate::api::user::user_repo::{called, first_at};
use crate::api::user::user_service::{credentials_post, roles_post, validate_credentials, validate_roles};
use crate::api::user::{user_views, LoginUserDto, Role, User, UserDto};
use sha3::Digest;
use vstd::prelude::*;
use vstd::string::StringExecFns;

verus! {

/// What a caller gets for logging in.
#[derive(Debug)]
pub struct Tokens {
    access_token: String,
}

impl View for Tokens {
    type V = Seq<char>;

    closed spec fn view(&self) -> Seq<char> {
        self.access_token@
    }
}

impl Tokens {
    /// The answer that carries `access_token`.
    pub fn new(access_token: String) -> (tokens: Tokens)
        ensures
            tokens@ == access_token@,
    {
        Tokens { access_token }
    }

    /// The access token.
    pub fn access_token(&self) -> (token: &String)
        ensures
            token@ == self@,
    {
        &self.access_token
    }
}

/// The SHA3-512 digest of the bytes of `password`, in lower-case hexadecimal digits.
pub uninterp spec fn sha3_512_hex(password: Seq<char>) -> Seq<char>;

/// Calls `Sha3_512::digest` on the bytes of `password` and writes the digest out in
/// lower-case hexadecimal digits, as the `LowerHex` of its output does. The same password
/// always gives the same digest.
#[verifier::external_body]
pub fn hash_password(password: &str) -> (digest: String)
    ensures
        digest@ == sha3_512_hex(password@),
{
    format!("{:x}", sha3::Sha3_512::digest(password))
}

/// The names of `roles` with a comma between neighbours.
pub open spec fn subject_of(roles: Seq<Role>) -> Seq<char>
    decreases roles.len(),
{
    if roles.len() == 0 {
        Seq::empty()
    } else if roles.len() == 1 {
        roles[0].label()
    } else {
        subject_of(roles.drop_last()) + ","@ + roles.last().label()
    }
}

/// Writes the names of `roles` with a comma between neighbours.
pub fn subject(roles: &Vec<Role>) -> (text: String)
    ensures
        text@ == subject_of(roles@),
{
    let mut text = String::new();
    let mut at: usize = 0;
    while at < roles.len()
        invariant
            at <= roles.len(),
            text@ == subject_of(roles@.take(at as int)),
        decreases roles.len() - at,
    {
        proof {
            assert(roles@.take(at as int + 1).drop_last() =~= roles@.take(at as int));
        }
        if at > 0 {
            text.append(",");
        }
        text.append(roles[at].as_ref());
        proof {
            if at == 0 {
                assert(text@ =~= roles@[0].label());
            }
        }
        at = at + 1;
    }
    proof {
        assert(roles@.take(at as int) =~= roles@);
    }
    text
}

/// The claims of the access token for a caller who logs in at `now`: they name the account
/// and its roles, and hold for `access_duration` seconds. Signing them is left to the
/// caller of this function.
pub fn login(users: &Vec<User>, user_dto: LoginUserDto, now: i64, access_duration: u64) -> (outcome: Result<
    Claims,
    ApiError,
>)
    requires
        access_duration <= MAX_DURATION,
        now + access_duration <= i64::MAX,
    ensures
        match outcome {
            Ok(claims) => exists|at: int|
                {
                    &&& first_at(user_views(users@), called(user_dto.username@), at)
                    &&& (#[trigger] user_views(users@)[at]).password == sha3_512_hex(user_dto.password@)
                    &&& claims@ == (ClaimsView {
                        iss: user_dto.username@,
                        sub: subject_of(user_views(users@)[at].roles),
                        iat: now,
                        exp: (now + access_duration) as i64,
                    })
                },
            Err(error) => credentials_post(user_views(users@), user_dto, Err(error)),
        },
{
    match validate_credentials(users, user_dto) {
        Ok(user) => {
            let roles = subject(&user.roles);
            Ok(make_claims(user.username, roles, now, access_duration as i64))
        },
        Err(error) => Err(error),
    }
}

/// The token that an `Authorization` header carries: what stands behind `Bearer` and one
/// blank.
pub open spec fn bearer_token(header: Seq<char>) -> Option<Seq<char>> {
    if header.len() >= 7 && header.take(7) == "Bearer "@ {
        Some(header.skip(7))
    } else {
        None
    }
}

/// The token of a request, given the text of its `Authorization` header, where it has one
/// that is text.
pub fn extract_jwt_from_header<'a>(authorization: Option<&'a str>) -> (token: Result<&'a str, ApiError>)
    ensures
        match token {
            Ok(found) => authorization matches Some(header) && bearer_token(header@) == Some(found@),
            Err(error) => {
                &&& error matches ApiError::Authentication(AuthError::MissingToken)
                &&& authorization matches Some(header) ==> bearer_token(header@) is None
            },
        },
{
    let header = match authorization {
        Some(header) => header,
        None => {
            return Err(ApiError::Authentication(AuthError::MissingToken));
        },
    };
    let length = header.unicode_len();
    let prefix = "Bearer ";
    proof {
        reveal_strlit("Bearer ");
    }
    if length < 7 {
        return Err(ApiError::Authentication(AuthError::MissingToken));
    }
    let mut at: usize = 0;
    while at < 7
        invariant
            at <= 7,
            authorization == Some(header),
            prefix@ == "Bearer "@,
            prefix@.len() == 7,
            header@.len() == length,
            length >= 7,
            forall|i: int| 0 <= i < at ==> header@[i] == prefix@[i],
        decreases 7 - at,
    {
        if header.get_char(at) != prefix.get_char(at) {
            proof {
                assert(header@.take(7)[at as int] != prefix@[at as int]);
            }
            return Err(ApiError::Authentication(AuthError::MissingToken));
        }
        at = at + 1;
    }
    proof {
        assert(header@.take(7) =~= prefix@);
        assert(header@.subrange(7, length as int) =~= header@.skip(7));
    }
    Ok(header.substring_char(7, length))
}

/// The roles that let a caller through to a part of the service.
#[derive(Debug)]
pub struct AuthMiddleware {
    roles: Vec<Role>,
}

impl View for AuthMiddleware {
    type V = Seq<Role>;

    closed spec fn view(&self) -> Seq<Role> {
        self.roles@
    }
}

impl AuthMiddleware {
    /// For administrators only.
    pub fn admin() -> (guard: AuthMiddleware)
        ensures
            guard@ == seq![Role::Admin],
    {
        let mut roles: Vec<Role> = Vec::new();
        roles.push(Role::Admin);
        AuthMiddleware { roles }
    }

    /// For plain users only.
    pub fn user() -> (guard: AuthMiddleware)
        ensures
            guard@ == seq![Role::User],
    {
        let mut roles: Vec<Role> = Vec::new();
        roles.push(Role::User);
        AuthMiddleware { roles }
    }

    /// For administrators and plain users.
    pub fn all() -> (guard: AuthMiddleware)
        ensures
            guard@ == seq![Role::Admin, Role::User],
    {
        let mut roles: Vec<Role> = Vec::new();
        roles.push(Role::Admin);
        roles.push(Role::User);
        AuthMiddleware { roles }
    }

    /// Lets the caller whom `claims` name through where the account has one of the roles
    /// of this guard.
    pub fn call(&self, users: &Vec<User>, claims: &Claims) -> (outcome: Result<UserDto, ApiError>)
        ensures
            roles_post(user_views(users@), claims.iss@, self@, outcome),
    {
        validate_roles(users, claims.iss.as_str(), self.roles.as_slice())
    }
}

} // verus!
