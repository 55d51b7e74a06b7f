use vstd::prelude::*;
use crate::lists::{find_user, has_user, FriendList, UserList};
use crate::types::{viewed, AddFriend, Refusal, User, UserInfo};
use crate::user::{contains_id, has_info_id};

verus! {

/// The answer to `request`, made against the friend lists `friends` and the
/// accounts `users`.
pub open spec fn add_reply(
    friends: Map<Seq<char>, Seq<UserInfo>>,
    users: Seq<User>,
    request: AddFriend,
) -> Result<(), Refusal> {
    let id = request.user.id@;
    if request.friend.id@ == id {
        Err(Refusal::SelfFriend)
    } else {
        match find_user(users, id) {
            None => Err(Refusal::UserNotFound),
            Some(user) => if user.password@ != request.user.password@ {
                Err(Refusal::NotMatchPassword)
            } else if friends.contains_key(id) {
                if has_info_id(friends[id], request.friend.id@) {
                    Err(Refusal::FriendAlreadyExists)
                } else {
                    Ok(())
                }
            } else {
                Err(Refusal::FriendListCreated)
            },
        }
    }
}

/// The friend lists after `request`: the friend is appended to the
/// requester's list when the answer is `Ok`, and becomes the whole of a new
/// list when the requester had none; otherwise nothing changes.
pub open spec fn add_effect(
    friends: Map<Seq<char>, Seq<UserInfo>>,
    users: Seq<User>,
    request: AddFriend,
) -> Map<Seq<char>, Seq<UserInfo>> {
    let id = request.user.id@;
    match add_reply(friends, users, request) {
        Ok(_) => friends.insert(id, friends[id].push(request.friend)),
        Err(Refusal::FriendListCreated) => friends.insert(id, seq![request.friend]),
        Err(_) => friends,
    }
}

/// Adds a friend to the list of the account that `add_friend` logs in to.
pub fn add(friends: &mut FriendList, users: &UserList, add_friend: AddFriend) -> (r: Result<
    (),
    Refusal,
>)
    requires
        old(friends).wf(),
    ensures
        final(friends).wf(),
        r == add_reply(old(friends)@, users@, add_friend),
        final(friends)@ == add_effect(old(friends)@, users@, add_friend),
{
    let user = add_friend.user();
    let friend = add_friend.friend().clone();
    let id = user.id();
    if *friend.id() == *user.id() {
        return Err(Refusal::SelfFriend);
    }
    match users.find(id) {
        Some(u) => {
            if *u.password() != *user.password() {
                return Err(Refusal::NotMatchPassword);
            }
        },
        None => {
            return Err(Refusal::UserNotFound);
        },
    }
    match friends.get(id) {
        Some(list) => {
            if !contains_id(list, friend.id()) {
                friends.push_friend(id, friend);
                Ok(())
            } else {
                Err(Refusal::FriendAlreadyExists)
            }
        },
        None => {
            let mut list = Vec::new();
            list.push(friend);
            proof {
                assert(list@ =~= seq![add_friend.friend]);
            }
            friends.insert(id.clone(), list);
            Err(Refusal::FriendListCreated)
        },
    }
}

/// The answer to asking for the friend list of `user`.
pub open spec fn get_reply(
    friends: Map<Seq<char>, Seq<UserInfo>>,
    users: Seq<User>,
    user: UserInfo,
) -> Result<Seq<UserInfo>, Refusal> {
    if !has_user(users, user.id@) {
        Err(Refusal::UserNotFound)
    } else if friends.contains_key(user.id@) {
        Ok(friends[user.id@])
    } else {
        Err(Refusal::FriendListNotFound)
    }
}

/// The friend list of the account `user`.
pub fn get(friends: &FriendList, users: &UserList, user: &UserInfo) -> (r: Result<
    Vec<UserInfo>,
    Refusal,
>)
    requires
        friends.wf(),
    ensures
        viewed(r) == get_reply(friends@, users@, *user),
{
    if !users.exist(user.id()) {
        return Err(Refusal::UserNotFound);
    }
    match friends.get(user.id()) {
        Some(list) => {
            let v = list.clone();
            assert(v@ =~= list@);
            Ok(v)
        },
        None => Err(Refusal::FriendListNotFound),
    }
}

} // verus!
