use vstd::prelude::*;
use crate::lists::{
    find_user, has_user, lemma_find_user_at, FriendList, UserList,
};
use crate::text::{contains_text, has_text};
use crate::types::{
    info_of, login_of, AccountInfo, LoginInfo, Refusal, SearchUserId, SearchUserInfo, User,
    UserInfo,
};

verus! {

/// Some entry of `list` has the id `id`.
pub open spec fn has_info_id(list: Seq<UserInfo>, id: Seq<char>) -> bool {
    exists|i: int| 0 <= i < list.len() && #[trigger] list[i].id@ == id
}

/// Whether some entry of `list` has the id `id`.
pub fn contains_id(list: &Vec<UserInfo>, id: &String) -> (r: bool)
    ensures
        r == has_info_id(list@, id@),
{
    let mut i: usize = 0;
    while i < list.len()
        invariant
            i <= list@.len(),
            forall|j: int| 0 <= j < i ==> #[trigger] list@[j].id@ != id@,
        decreases list@.len() - i,
    {
        if list[i].id == *id {
            return true;
        }
        i = i + 1;
    }
    false
}

/// The answer to logging in with `login`: the stored credentials when the
/// account exists and the password matches.
pub open spec fn login_reply(users: Seq<User>, login: LoginInfo) -> Result<LoginInfo, Refusal> {
    match find_user(users, login.id@) {
        Some(user) => if user.password@ == login.password@ {
            Ok(login_of(user))
        } else {
            Err(Refusal::NotMatchPassword)
        },
        None => Err(Refusal::UserNotFound),
    }
}

/// Logs in: checks `login` against the account with its id.
pub fn login(user_list: &UserList, credentials: &LoginInfo) -> (r: Result<LoginInfo, Refusal>)
    ensures
        r == login_reply(user_list@, *credentials),
{
    match user_list.find(credentials.id()) {
        Some(user) => {
            if *user.password() == *credentials.password() {
                Ok(LoginInfo::new(user.id().clone(), user.password().clone()))
            } else {
                Err(Refusal::NotMatchPassword)
            }
        },
        None => Err(Refusal::UserNotFound),
    }
}

/// Signs up `user`: refused when its id is taken; otherwise the account is
/// appended and given an empty friend list, and the account is answered.
pub fn create(user_list: &mut UserList, friend_list: &mut FriendList, user: User) -> (r: Result<
    User,
    Refusal,
>)
    requires
        old(friend_list).wf(),
    ensures
        final(friend_list).wf(),
        has_user(old(user_list)@, user.id@) ==> {
            &&& r == Err::<User, Refusal>(Refusal::UserAlreadyExists)
            &&& final(user_list)@ == old(user_list)@
            &&& final(friend_list)@ == old(friend_list)@
        },
        !has_user(old(user_list)@, user.id@) ==> {
            &&& r == Ok::<User, Refusal>(user)
            &&& final(user_list)@ == old(user_list)@.push(user)
            &&& final(friend_list)@ == old(friend_list)@.insert(user.id@, Seq::<UserInfo>::empty())
        },
{
    if !user_list.exist(user.id()) {
        user_list.push(user.clone());
        friend_list.insert(user.id().clone(), Vec::new());
        Ok(user)
    } else {
        Err(Refusal::UserAlreadyExists)
    }
}

/// `user` is a hit of `query`: its name holds the query's name, or its id
/// holds the query's id.
pub open spec fn search_hit(user: User, query: UserInfo) -> bool {
    has_text(user.name@, query.name@) || has_text(user.id@, query.id@)
}

/// The accounts a search by `searcher` lists: the hits of `query`, in
/// sign-up order, without the searcher.
pub open spec fn search_hits(users: Seq<User>, query: UserInfo, searcher: Seq<char>) -> Seq<User> {
    users.filter(listed_by(query, searcher))
}

/// Holds of the hits of `query` other than `searcher`.
pub open spec fn listed_by(query: UserInfo, searcher: Seq<char>) -> spec_fn(User) -> bool {
    |u: User| search_hit(u, query) && u.id@ != searcher
}

/// A search hit as shown: name, id, and whether it is on the friend list.
pub open spec fn hit_view(user: User, friends: Seq<UserInfo>) -> (String, String, bool) {
    (user.name, user.id, has_info_id(friends, user.id@))
}

/// The fields of a shown search hit.
pub open spec fn search_info_view(info: SearchUserInfo) -> (String, String, bool) {
    (info.name, info.id, info.status)
}

/// Searches the accounts for `search` on behalf of `user_id`, whose friend
/// list must exist, and marks each hit that is on that list.
pub fn search(
    query: &UserInfo,
    user_list: &UserList,
    friend_list: &FriendList,
    user_id: &SearchUserId,
) -> (r: Vec<SearchUserInfo>)
    requires
        friend_list.wf(),
        friend_list@.contains_key(user_id.id@),
    ensures
        r@.map_values(|s: SearchUserInfo| search_info_view(s)) == search_hits(
            user_list@,
            *query,
            user_id.id@,
        ).map_values(|u: User| hit_view(u, friend_list@[user_id.id@])),
{
    let friends = match friend_list.get(&user_id.id) {
        Some(f) => f,
        None => {
            return Vec::new();
        },
    };
    let users = user_list.as_vec();
    let ghost pred = listed_by(*query, user_id.id@);
    let ghost fl = friend_list@[user_id.id@];
    let mut out: Vec<SearchUserInfo> = Vec::new();
    let mut i: usize = 0;
    while i < users.len()
        invariant
            i <= users@.len(),
            users@ == user_list@,
            friends@ == fl,
            pred == listed_by(*query, user_id.id@),
            out@.map_values(|s: SearchUserInfo| search_info_view(s)) == users@.take(
                i as int,
            ).filter(pred).map_values(|u: User| hit_view(u, fl)),
        decreases users@.len() - i,
    {
        let u = &users[i];
        proof {
            reveal_with_fuel(Seq::<_>::filter, 1);
            assert(users@.take(i + 1).drop_last() =~= users@.take(i as int));
        }
        let hit = contains_text(&u.name, &query.name) || contains_text(&u.id, &query.id);
        if hit && u.id != user_id.id {
            let info = UserInfo::of_user(u);
            let status = contains_id(friends, &u.id);
            let ghost before = out@;
            out.push(SearchUserInfo::new(&info, status));
            assert(out@.map_values(|s: SearchUserInfo| search_info_view(s)) =~= before.map_values(
                |s: SearchUserInfo| search_info_view(s),
            ).push(hit_view(*u, fl)));
        }
        assert(users@.take(i + 1).filter(pred).map_values(|u: User| hit_view(u, fl))
            =~= out@.map_values(|s: SearchUserInfo| search_info_view(s)));
        i = i + 1;
    }
    assert(users@.take(users@.len() as int) =~= users@);
    out
}

/// The answer to asking for the account page of `id`.
pub open spec fn info_reply(users: Seq<User>, friends: Map<Seq<char>, Seq<UserInfo>>, id: Seq<char>) -> Result<
    (UserInfo, Seq<UserInfo>),
    Refusal,
> {
    match find_user(users, id) {
        Some(user) => if friends.contains_key(id) {
            Ok((info_of(user), friends[id]))
        } else {
            Err(Refusal::FriendListNotFound)
        },
        None => Err(Refusal::UserNotFound),
    }
}

/// The fields of an account page.
pub open spec fn account_view(a: AccountInfo) -> (UserInfo, Seq<UserInfo>) {
    (UserInfo { name: a.name, id: a.id }, a.friends@)
}

/// The account page of `id`: its name, id and friend list.
pub fn info(id: &String, user_list: &UserList, friend_list: &FriendList) -> (r: Result<
    AccountInfo,
    Refusal,
>)
    requires
        friend_list.wf(),
    ensures
        match r {
            Ok(a) => info_reply(user_list@, friend_list@, id@) == Ok::<_, Refusal>(account_view(a)),
            Err(e) => info_reply(user_list@, friend_list@, id@) == Err::<(UserInfo, Seq<UserInfo>), _>(e),
        },
{
    match user_list.find(id) {
        Some(user) => {
            match friend_list.get(id) {
                Some(friends) => {
                    let f = friends.clone();
                    assert(f@ =~= friends@);
                    Ok(AccountInfo::new(UserInfo::of_user(user), f))
                },
                None => Err(Refusal::FriendListNotFound),
            }
        },
        None => Err(Refusal::UserNotFound),
    }
}

} // verus!
