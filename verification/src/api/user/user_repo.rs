use crate::api::auth::{hash_password, sha3_512_hex};
use crate::api::error::{Entity, RepoError};
use crate::api::user::{
    clone_roles, clone_text, dto_views, text_view, user_views, CreateUserDto, UpdateUserDto, User, UserDto,
    UserDtoView, UserView,
};
use vstd::prelude::*;
use vstd::string::StringExecFns;

verus! {

/// The largest id among `users`; 0 where there is none.
pub open spec fn max_id(users: Seq<UserView>) -> u64
    decreases users.len(),
{
    if users.len() == 0 {
        0
    } else if users.last().id >= max_id(users.drop_last()) {
        users.last().id
    } else {
        max_id(users.drop_last())
    }
}

/// The id that the next account gets: one more than the largest, but 0 as long as the
/// largest is 0.
pub open spec fn next_id(users: Seq<UserView>) -> int {
    if max_id(users) == 0 {
        0
    } else {
        max_id(users) + 1
    }
}

/// An account of `users` is called `username`.
pub open spec fn name_taken(users: Seq<UserView>, username: Seq<char>) -> bool {
    exists|at: int| 0 <= at < users.len() && #[trigger] users[at].username == username
}

/// `at` is the first place in `users` whose account meets `wanted`.
pub open spec fn first_at(users: Seq<UserView>, wanted: spec_fn(UserView) -> bool, at: int) -> bool {
    &&& 0 <= at < users.len()
    &&& wanted(users[at])
    &&& forall|before: int| 0 <= before < at ==> !wanted(#[trigger] users[before])
}

/// No account of `users` meets `wanted`.
pub open spec fn none_meets(users: Seq<UserView>, wanted: spec_fn(UserView) -> bool) -> bool {
    forall|at: int| 0 <= at < users.len() ==> !wanted(#[trigger] users[at])
}

/// The accounts of `users` whose id is not `id`, in their order.
pub open spec fn without_id(users: Seq<UserView>, id: u64) -> Seq<UserView>
    decreases users.len(),
{
    if users.len() == 0 {
        Seq::empty()
    } else if users.last().id == id {
        without_id(users.drop_last(), id)
    } else {
        without_id(users.drop_last(), id).push(users.last())
    }
}

/// The account of `username` has this id.
pub open spec fn with_id(id: u64) -> spec_fn(UserView) -> bool {
    |user: UserView| user.id == id
}

/// The account is called `username`.
pub open spec fn called(username: Seq<char>) -> spec_fn(UserView) -> bool {
    |user: UserView| user.username == username
}

/// What making an account comes to: `after` is `before` with the new account behind the
/// others, its id the next one and its password the digest of the one asked for, and the
/// account comes back as shown to the outside; or the username is held, or, the username
/// being free, no role is given, and `after` is `before`.
pub open spec fn create_user_post(
    before: Seq<UserView>,
    request: CreateUserDto,
    after: Seq<UserView>,
    created: Result<UserDto, RepoError>,
) -> bool {
    match created {
        Ok(dto) => {
            &&& !name_taken(before, request.username@)
            &&& request.roles@.len() > 0
            &&& after == before.push(
                UserView {
                    id: next_id(before) as u64,
                    username: request.username@,
                    password: sha3_512_hex(request.password@),
                    desc: text_view(request.desc),
                    roles: request.roles@,
                },
            )
            &&& dto@ == after.last().dto()
        },
        Err(RepoError::AlreadyExist(Entity::User, field)) => {
            &&& name_taken(before, request.username@)
            &&& field@ == "username"@
            &&& after == before
        },
        Err(RepoError::Missing(Entity::User, field)) => {
            &&& !name_taken(before, request.username@)
            &&& request.roles@.len() == 0
            &&& field@ == "roles"@
            &&& after == before
        },
        Err(_) => false,
    }
}

/// What taking the accounts with the id `id` out comes to: the first of them comes back
/// as shown to the outside and `after` is `before` without them all; or there is none and
/// `after` is `before`.
pub open spec fn delete_user_post(
    before: Seq<UserView>,
    id: u64,
    after: Seq<UserView>,
    deleted: Result<UserDto, RepoError>,
) -> bool {
    match deleted {
        Ok(dto) => {
            &&& exists|at: int| first_at(before, with_id(id), at) && dto@ == (#[trigger] before[at]).dto()
            &&& after == without_id(before, id)
        },
        Err(error) => {
            &&& error matches RepoError::NotFound(Entity::User)
            &&& none_meets(before, with_id(id))
            &&& after == before
        },
    }
}

/// What changing a description comes to: the first account with the id asked for stands
/// behind all the others with the new description, any other account with that id is gone,
/// and the account comes back as shown to the outside; or no id is given, or no account
/// has it, and `after` is `before`.
pub open spec fn update_user_post(
    before: Seq<UserView>,
    request: UpdateUserDto,
    after: Seq<UserView>,
    updated: Result<UserDto, RepoError>,
) -> bool {
    match updated {
        Ok(dto) => {
            &&& request.id matches Some(id)
            &&& exists|at: int|
                {
                    &&& first_at(before, with_id(id), at)
                    &&& after == without_id(before, id).push(
                        UserView { desc: text_view(request.desc), ..(#[trigger] before[at]) },
                    )
                }
            &&& dto@ == after.last().dto()
        },
        Err(RepoError::Internal) => request.id is None && after == before,
        Err(RepoError::NotFound(Entity::User)) => {
            &&& request.id matches Some(id)
            &&& none_meets(before, with_id(id))
            &&& after == before
        },
        Err(_) => false,
    }
}

/// What looking an account up by name comes to: the first account called `username`, as
/// shown to the outside, with the digest of its password; or there is none.
pub open spec fn password_post(
    users: Seq<UserView>,
    username: Seq<char>,
    found: Result<(UserDto, String), RepoError>,
) -> bool {
    match found {
        Ok((dto, digest)) => exists|at: int|
            {
                &&& first_at(users, called(username), at)
                &&& dto@ == (#[trigger] users[at]).dto()
                &&& digest@ == users[at].password
            },
        Err(error) => error matches RepoError::NotFound(Entity::User) && none_meets(users, called(username)),
    }
}

/// All the accounts, as they are shown to the outside, in the order in which they are kept.
pub fn list_users(users: &Vec<User>) -> (listed: Result<Vec<UserDto>, RepoError>)
    ensures
        listed matches Ok(dtos) && dto_views(dtos@) == user_views(users@).map_values(|user: UserView| user.dto()),
{
    let mut dtos: Vec<UserDto> = Vec::new();
    let mut at: usize = 0;
    while at < users.len()
        invariant
            at <= users.len(),
            dto_views(dtos@) == user_views(users@).map_values(|user: UserView| user.dto()).take(at as int),
        decreases users.len() - at,
    {
        let ghost shorter = dtos@;
        let dto = UserDto::from(users[at].clone());
        dtos.push(dto);
        proof {
            assert(dto_views(dtos@) =~= dto_views(shorter).push(users@[at as int]@.dto()));
            assert(dto_views(dtos@) =~= user_views(users@).map_values(|user: UserView| user.dto()).take(
                at as int + 1,
            ));
        }
        at = at + 1;
    }
    proof {
        let all = user_views(users@).map_values(|user: UserView| user.dto());
        assert(all.take(at as int) =~= all);
    }
    Ok(dtos)
}

/// The id for the next account.
pub fn get_id(users: &[User]) -> (id: Result<u64, RepoError>)
    requires
        max_id(user_views(users@)) < u64::MAX,
    ensures
        id matches Ok(next) && next == next_id(user_views(users@)),
{
    let mut last_id: u64 = 0;
    let mut at: usize = 0;
    while at < users.len()
        invariant
            at <= users.len(),
            last_id == max_id(user_views(users@).take(at as int)),
        decreases users.len() - at,
    {
        proof {
            assert(user_views(users@).take(at as int + 1).drop_last() =~= user_views(users@).take(at as int));
        }
        if users[at].id >= last_id {
            last_id = users[at].id;
        }
        at = at + 1;
    }
    proof {
        assert(user_views(users@).take(at as int) =~= user_views(users@));
    }
    Ok(
        if last_id == 0 {
            0
        } else {
            last_id + 1
        },
    )
}

/// Makes an account out of `create_user_dto` and keeps it behind the others. Where the
/// username is held, or no role is given, nothing is kept.
pub fn create_user(users: &mut Vec<User>, create_user_dto: CreateUserDto) -> (created: Result<UserDto, RepoError>)
    requires
        max_id(user_views(old(users)@)) < u64::MAX,
    ensures
        create_user_post(user_views(old(users)@), create_user_dto, user_views(final(users)@), created),
        created is Err ==> final(users)@ == old(users)@,
{
    let CreateUserDto { username, password, desc, roles } = create_user_dto;
    let mut at: usize = 0;
    while at < users.len()
        invariant
            at <= users.len(),
            users@ == old(users)@,
            username@ == create_user_dto.username@,
            forall|i: int| 0 <= i < at ==> (#[trigger] user_views(users@)[i]).username != username@,
        decreases users.len() - at,
    {
        if users[at].username == username {
            proof {
                assert(user_views(users@)[at as int].username == username@);
            }
            return Err(RepoError::AlreadyExist(Entity::User, String::from_str("username")));
        }
        at = at + 1;
    }
    if roles.len() == 0 {
        return Err(RepoError::Missing(Entity::User, String::from_str("roles")));
    }
    let id = match get_id(users.as_slice()) {
        Ok(id) => id,
        Err(error) => {
            return Err(error);
        },
    };
    let user = User { id, username, password: hash_password(password.as_str()), desc, roles };
    let dto = UserDto::from(user.clone());
    let ghost before = users@;
    users.push(user);
    proof {
        assert(user_views(users@) =~= user_views(before).push(user@));
    }
    Ok(dto)
}

/// The first account that `predicate` accepts.
pub fn get_user_entity<P: Fn(&User) -> bool>(users: &Vec<User>, predicate: P) -> (found: Result<User, RepoError>)
    requires
        forall|user: &User| call_requires(predicate, (user,)),
    ensures
        match found {
            Ok(user) => exists|at: int|
                {
                    &&& 0 <= at < users.len()
                    &&& user@ == (#[trigger] users[at])@
                    &&& call_ensures(predicate, (&users[at],), true)
                    &&& forall|before: int|
                        0 <= before < at ==> call_ensures(predicate, (&#[trigger] users[before],), false)
                },
            Err(error) => error matches RepoError::NotFound(Entity::User) && forall|at: int|
                0 <= at < users.len() ==> call_ensures(predicate, (&#[trigger] users[at],), false),
        },
{
    let mut at: usize = 0;
    while at < users.len()
        invariant
            at <= users.len(),
            forall|user: &User| call_requires(predicate, (user,)),
            forall|before: int| 0 <= before < at ==> call_ensures(predicate, (&#[trigger] users[before],), false),
        decreases users.len() - at,
    {
        if predicate(&users[at]) {
            return Ok(users[at].clone());
        }
        at = at + 1;
    }
    Err(RepoError::NotFound(Entity::User))
}

/// `predicate` has given `verdict` on the account `user`, shown as to the outside.
pub open spec fn judged<P: Fn(UserDto) -> bool>(predicate: P, user: UserView, verdict: bool) -> bool {
    exists|shown: UserDto| shown@ == user.dto() && #[trigger] call_ensures(predicate, (shown,), verdict)
}

/// The first account that `predicate` accepts when shown as to the outside.
pub fn get_user<P: Fn(UserDto) -> bool>(users: &Vec<User>, predicate: P) -> (found: Result<UserDto, RepoError>)
    requires
        forall|dto: UserDto| call_requires(predicate, (dto,)),
    ensures
        match found {
            Ok(dto) => exists|at: int|
                {
                    &&& 0 <= at < users.len()
                    &&& dto@ == (#[trigger] users[at])@.dto()
                    &&& judged(predicate, users[at]@, true)
                    &&& forall|before: int| 0 <= before < at ==> judged(predicate, (#[trigger] users[before])@, false)
                },
            Err(error) => error matches RepoError::NotFound(Entity::User) && forall|at: int|
                0 <= at < users.len() ==> judged(predicate, (#[trigger] users[at])@, false),
        },
{
    let mut at: usize = 0;
    while at < users.len()
        invariant
            at <= users.len(),
            forall|dto: UserDto| call_requires(predicate, (dto,)),
            forall|before: int| 0 <= before < at ==> judged(predicate, (#[trigger] users[before])@, false),
        decreases users.len() - at,
    {
        let shown = UserDto::from(users[at].clone());
        let dto = shown.clone();
        let accepted = predicate(shown);
        proof {
            assert(call_ensures(predicate, (shown,), accepted));
            assert(judged(predicate, users[at as int]@, accepted));
        }
        if accepted {
            return Ok(dto);
        }
        at = at + 1;
    }
    Err(RepoError::NotFound(Entity::User))
}

/// The accounts of `users` whose id is not `id`, in their order.
fn keep_others(users: &Vec<User>, id: u64) -> (kept: Vec<User>)
    ensures
        user_views(kept@) == without_id(user_views(users@), id),
{
    let mut kept: Vec<User> = Vec::new();
    let mut at: usize = 0;
    while at < users.len()
        invariant
            at <= users.len(),
            user_views(kept@) == without_id(user_views(users@).take(at as int), id),
        decreases users.len() - at,
    {
        proof {
            assert(user_views(users@).take(at as int + 1).drop_last() =~= user_views(users@).take(at as int));
        }
        if users[at].id != id {
            let ghost shorter = kept@;
            kept.push(users[at].clone());
            proof {
                assert(user_views(kept@) =~= user_views(shorter).push(users@[at as int]@));
            }
        }
        at = at + 1;
    }
    proof {
        assert(user_views(users@).take(at as int) =~= user_views(users@));
    }
    kept
}

/// Takes every account with the id `id` out and hands back the first of them, as shown to
/// the outside. Where there is none, nothing changes.
pub fn delete_user(users: &mut Vec<User>, id: u64) -> (deleted: Result<UserDto, RepoError>)
    ensures
        delete_user_post(user_views(old(users)@), id, user_views(final(users)@), deleted),
        deleted is Err ==> final(users)@ == old(users)@,
{
    let wanted_one = |user: &User| -> (hit: bool)
        ensures
            hit == (user.id == id),
        {
            let hit = user.id == id;
            hit
        };
    let found = get_user_entity(users, wanted_one);
    match found {
        Ok(user) => {
            proof {
                let at = choose|at: int|
                    0 <= at < users.len() && user@ == (#[trigger] users[at])@ && users[at].id == id && forall|
                        before: int,
                    |
                        0 <= before < at ==> (#[trigger] users[before]).id != id;
                assert(first_at(user_views(users@), with_id(id), at)) by {
                    assert forall|before: int| 0 <= before < at implies !with_id(id)(
                        #[trigger] user_views(users@)[before],
                    ) by {
                        assert(users[before].id != id);
                    }
                }
                assert(user@ == user_views(users@)[at]);
            }
            let kept = keep_others(users, id);
            *users = kept;
            Ok(UserDto::from(user))
        },
        Err(error) => {
            proof {
                assert forall|at: int| 0 <= at < users.len() implies !with_id(id)(
                    #[trigger] user_views(users@)[at],
                ) by {
                    assert(users[at].id != id);
                }
            }
            Err(error)
        },
    }
}

/// Gives the account with the id of `update_user_dto` the description of
/// `update_user_dto`. The account then stands behind all the others, and any other account
/// with that id is gone. Without an id, or without an account of that id, nothing changes.
pub fn update_user(users: &mut Vec<User>, update_user_dto: UpdateUserDto) -> (updated: Result<UserDto, RepoError>)
    ensures
        update_user_post(user_views(old(users)@), update_user_dto, user_views(final(users)@), updated),
        updated is Err ==> final(users)@ == old(users)@,
{
    let UpdateUserDto { id, desc } = update_user_dto;
    let user_id = match id {
        Some(id) => id,
        None => {
            return Err(RepoError::Internal);
        },
    };
    let wanted_one = |user: &User| -> (hit: bool)
        ensures
            hit == (user.id == user_id),
        {
            let hit = user.id == user_id;
            hit
        };
    let found = get_user_entity(users, wanted_one);
    match found {
        Ok(user) => {
            proof {
                let at = choose|at: int|
                    0 <= at < users.len() && user@ == (#[trigger] users[at])@ && users[at].id == user_id
                        && forall|before: int| 0 <= before < at ==> (#[trigger] users[before]).id != user_id;
                assert(first_at(user_views(users@), with_id(user_id), at)) by {
                    assert forall|before: int| 0 <= before < at implies !with_id(user_id)(
                        #[trigger] user_views(users@)[before],
                    ) by {
                        assert(users[before].id != user_id);
                    }
                }
                assert(user@ == user_views(users@)[at]);
            }
            let updated_user = User {
                id: user.id,
                username: user.username,
                password: user.password,
                desc,
                roles: user.roles,
            };
            let mut kept = keep_others(users, user_id);
            let dto = UserDto::from(updated_user.clone());
            let ghost shorter = kept@;
            kept.push(updated_user);
            proof {
                assert(user_views(kept@) =~= user_views(shorter).push(updated_user@));
            }
            *users = kept;
            Ok(dto)
        },
        Err(error) => {
            proof {
                assert forall|at: int| 0 <= at < users.len() implies !with_id(user_id)(
                    #[trigger] user_views(users@)[at],
                ) by {
                    assert(users[at].id != user_id);
                }
            }
            Err(error)
        },
    }
}

/// The account called `username`, as shown to the outside, with the digest of its
/// password.
pub fn get_hashed_password(users: &Vec<User>, username: &str) -> (found: Result<(UserDto, String), RepoError>)
    ensures
        password_post(user_views(users@), username@, found),
{
    let wanted = String::from_str(username);
    let wanted_one = |user: &User| -> (hit: bool)
        ensures
            hit == (user.username@ == wanted@),
        {
            let hit = user.username == wanted;
            hit
        };
    let found = get_user_entity(users, wanted_one);
    match found {
        Ok(user) => {
            proof {
                let at = choose|at: int|
                    0 <= at < users.len() && user@ == (#[trigger] users[at])@ && users[at].username@
                        == username@ && forall|before: int|
                        0 <= before < at ==> (#[trigger] users[before]).username@ != username@;
                assert(first_at(user_views(users@), called(username@), at)) by {
                    assert forall|before: int| 0 <= before < at implies !called(username@)(
                        #[trigger] user_views(users@)[before],
                    ) by {
                        assert(users[before].username@ != username@);
                    }
                }
                assert(user@ == user_views(users@)[at]);
            }
            let hashed_password = user.password.clone();
            Ok((UserDto::from(user), hashed_password))
        },
        Err(error) => {
            proof {
                assert forall|at: int| 0 <= at < users.len() implies !called(username@)(
                    #[trigger] user_views(users@)[at],
                ) by {
                    assert(users[at].username@ != username@);
                }
            }
            Err(error)
        },
    }
}

} // verus!
