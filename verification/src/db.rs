use vstd::prelude::*;
use crate::json::{decode_ids, encode_ids, ids_of_json, json_of_ids};
use crate::message::has_id;
use crate::room::{other_than, others};
use crate::types::{Error, LoginInfo, Room, RoomId, SearchUserInfo, User, UserInfo};
use crate::user::search_info_view;

verus! {

/// The answer to logging in with `credentials` to the stored account `user`:
/// its credentials when the password matches.
pub fn login(user: User, credentials: &LoginInfo) -> (r: Result<LoginInfo, Error>)
    ensures
        user.password@ == credentials.password@ ==> r == Ok::<LoginInfo, Error>(
            LoginInfo { id: user.id, password: user.password },
        ),
        user.password@ != credentials.password@ ==> r == Err::<LoginInfo, Error>(
            Error::NotMatchPassword,
        ),
{
    if user.password == *credentials.password() {
        Ok(LoginInfo::new(user.id, user.password))
    } else {
        Err(Error::NotMatchPassword)
    }
}

/// The answer to signing up `user`, given the id the insert reported:
/// `UserAlreadyExists` when it is 0, the account's credentials otherwise.
pub fn signup_reply(last_insert_id: u64, user: &User) -> (r: Result<LoginInfo, Error>)
    ensures
        last_insert_id == 0 ==> r == Err::<LoginInfo, Error>(Error::UserAlreadyExists),
        last_insert_id != 0 ==> r == Ok::<LoginInfo, Error>(
            LoginInfo { id: user.id, password: user.password },
        ),
{
    if last_insert_id == 0 {
        return Err(Error::UserAlreadyExists);
    }
    Ok(LoginInfo::from(user))
}

/// The stored friend list of a new account: the JSON text of an empty list,
/// which reads back as no ids.
pub fn empty_friend_list() -> (r: String)
    ensures
        r@ == json_of_ids(Seq::<Seq<char>>::empty()),
        ids_of_json(r@) == Some(Seq::<Seq<char>>::empty()),
{
    let ids: Vec<String> = Vec::new();
    assert(ids.deep_view() =~= Seq::<Seq<char>>::empty());
    encode_ids(&ids)
}

/// The stored form of an id list (a friend list or a room's members): its
/// JSON text, from which `stored_ids` reads the same ids back.
pub fn id_list_text(ids: &Vec<String>) -> (r: String)
    ensures
        r@ == json_of_ids(ids.deep_view()),
        ids_of_json(r@) == Some(ids.deep_view()),
{
    encode_ids(ids)
}

/// The ids of a stored id list given as JSON text; no ids when the text
/// is not a JSON array of strings.
pub fn stored_ids(text: &String) -> (r: Vec<String>)
    ensures
        ids_of_json(text@) matches Some(ids) ==> r.deep_view() == ids,
        ids_of_json(text@) is None ==> r@ == Seq::<String>::empty(),
{
    match decode_ids(text) {
        Some(ids) => ids,
        None => Vec::new(),
    }
}

/// The texts of a list of strings.
pub open spec fn texts(s: Seq<String>) -> Seq<Seq<char>> {
    s.map_values(|x: String| x@)
}

/// The ids a stored id list holds: what serde_json reads from its text, or
/// none when it reads nothing.
pub open spec fn decoded_ids(text: Seq<char>) -> Seq<Seq<char>> {
    match ids_of_json(text) {
        Some(ids) => ids,
        None => Seq::empty(),
    }
}

/// A stored room row (its id and the text of its member list) is a room of
/// the account `id`.
pub open spec fn row_has_member(row: (RoomId, Seq<char>), id: Seq<char>) -> bool {
    decoded_ids(row.1).contains(id)
}

/// Holds of every text but `id`.
pub open spec fn text_other_than(id: Seq<char>) -> spec_fn(Seq<char>) -> bool {
    |m: Seq<char>| m != id
}

/// A stored room row as shown to the account `id`: its other members.
pub open spec fn row_shown_to(row: (RoomId, Seq<char>), id: Seq<char>) -> (RoomId, Seq<Seq<char>>) {
    (row.0, decoded_ids(row.1).filter(text_other_than(id)))
}

/// The rooms of the account `id` among the stored rows, in order, each with
/// its other members.
pub open spec fn stored_rooms_of(rows: Seq<(RoomId, Seq<char>)>, id: Seq<char>) -> Seq<
    (RoomId, Seq<Seq<char>>),
> {
    rows.filter(|row: (RoomId, Seq<char>)| row_has_member(row, id)).map_values(
        |row: (RoomId, Seq<char>)| row_shown_to(row, id),
    )
}

/// A stored room row with its member list's text.
pub open spec fn row_view(row: (RoomId, String)) -> (RoomId, Seq<char>) {
    (row.0, row.1@)
}

/// A room with the texts of its members.
pub open spec fn room_texts(room: Room) -> (RoomId, Seq<Seq<char>>) {
    (room.id, texts(room.members@))
}

proof fn lemma_texts_filter(v: Seq<String>, id: Seq<char>)
    ensures
        texts(v.filter(other_than(id))) == texts(v).filter(text_other_than(id)),
    decreases v.len(),
{
    reveal(Seq::filter);
    if v.len() > 0 {
        lemma_texts_filter(v.drop_last(), id);
        assert(texts(v).drop_last() =~= texts(v.drop_last()));
        if v.last()@ != id {
            assert(texts(v.drop_last().filter(other_than(id)).push(v.last())) =~= texts(
                v.drop_last().filter(other_than(id)),
            ).push(v.last()@));
        }
    }
}

/// The rooms of the account `user_id` among the stored rows (each a room id
/// and the stored text of its member list), in order, each with its other
/// members. A row whose text reads as no list has no members.
pub fn stored_rooms(rows: &Vec<(RoomId, String)>, user_id: &String) -> (r: Vec<Room>)
    ensures
        r@.map_values(|room: Room| room_texts(room)) == stored_rooms_of(
            rows@.map_values(|row: (RoomId, String)| row_view(row)),
            user_id@,
        ),
{
    let ghost rv = rows@.map_values(|row: (RoomId, String)| row_view(row));
    let ghost pred = |row: (RoomId, Seq<char>)| row_has_member(row, user_id@);
    let mut out: Vec<Room> = Vec::new();
    let mut i: usize = 0;
    while i < rows.len()
        invariant
            i <= rows@.len(),
            rv == rows@.map_values(|row: (RoomId, String)| row_view(row)),
            pred == (|row: (RoomId, Seq<char>)| row_has_member(row, user_id@)),
            out@.map_values(|room: Room| room_texts(room)) == rv.take(i as int).filter(
                pred,
            ).map_values(|row: (RoomId, Seq<char>)| row_shown_to(row, user_id@)),
        decreases rows@.len() - i,
    {
        proof {
            reveal_with_fuel(Seq::<_>::filter, 1);
            assert(rv.take(i + 1).drop_last() =~= rv.take(i as int));
        }
        let ids = stored_ids(&rows[i].1);
        let ghost row = rv[i as int];
        assert(row == row_view(rows@[i as int]));
        assert(texts(ids@) =~= decoded_ids(row.1)) by {
            if ids_of_json(row.1) is None {
                assert(ids@ =~= Seq::<String>::empty());
            } else {
                assert(texts(ids@) =~= ids.deep_view());
            }
        }
        let member = crate::message::contains_user_id(&ids, user_id);
        assert(member == row_has_member(row, user_id@)) by {
            if member {
                let k = choose|k: int| 0 <= k < ids@.len() && #[trigger] ids@[k]@ == user_id@;
                assert(texts(ids@)[k] == user_id@);
            }
            if row_has_member(row, user_id@) {
                let k = choose|k: int| 0 <= k < texts(ids@).len() && texts(ids@)[k] == user_id@;
                assert(ids@[k]@ == user_id@);
            }
        }
        if member {
            let ghost before = out@;
            let rest = others(&ids, user_id);
            proof {
                lemma_texts_filter(ids@, user_id@);
            }
            out.push(Room::new(rows[i].0, rest));
            assert(rest@ == ids@.filter(other_than(user_id@)));
            assert(texts(rest@) == texts(ids@).filter(text_other_than(user_id@)));
            assert(texts(rest@) == decoded_ids(row.1).filter(text_other_than(user_id@)));
            assert(out@[out@.len() - 1].members@ == rest@);
            assert(room_texts(out@[out@.len() - 1]) == row_shown_to(row, user_id@));
            assert(out@.map_values(|room: Room| room_texts(room)) =~= before.map_values(
                |room: Room| room_texts(room),
            ).push(row_shown_to(row, user_id@)));
        }
        assert(rv.take(i + 1).filter(pred).map_values(
            |row: (RoomId, Seq<char>)| row_shown_to(row, user_id@),
        ) =~= out@.map_values(|room: Room| room_texts(room)));
        i = i + 1;
    }
    assert(rv.take(rows@.len() as int) =~= rv);
    out
}

/// `friends` with `friend_id` appended, as stored after adding a friend.
pub fn with_friend(friends: Vec<String>, friend_id: String) -> (r: Vec<String>)
    ensures
        r@ == friends@.push(friend_id),
{
    let mut friends = friends;
    friends.push(friend_id);
    friends
}

/// Every requested member other than the creator `user_id` is on the
/// creator's friend list.
pub open spec fn members_are_friends(friends: Seq<String>, members: Seq<String>, user_id: Seq<char>) -> bool {
    forall|j: int|
        0 <= j < members.len() ==> #[trigger] members[j]@ == user_id || has_id(friends, members[j]@)
}

/// Checks a room request against the creator's stored friend list:
/// `NotFriends` when some requested member other than the creator is not on it.
pub fn check_room_members(friends: &Vec<String>, members: &Vec<String>, user_id: &String) -> (r: Result<
    (),
    Error,
>)
    ensures
        members_are_friends(friends@, members@, user_id@) ==> r == Ok::<(), Error>(()),
        !members_are_friends(friends@, members@, user_id@) ==> r == Err::<(), Error>(Error::NotFriends),
{
    let mut i: usize = 0;
    while i < members.len()
        invariant
            i <= members@.len(),
            forall|j: int|
                0 <= j < i ==> #[trigger] members@[j]@ == user_id@ || has_id(friends@, members@[j]@),
        decreases members@.len() - i,
    {
        if members[i] != *user_id && !crate::message::contains_user_id(friends, &members[i]) {
            return Err(Error::NotFriends);
        }
        i = i + 1;
    }
    Ok(())
}

/// The pattern that matches every name holding `text`: `%text%`.
pub fn like_pattern(text: &String) -> (r: String)
    ensures
        r@ == seq!['%'] + text@ + seq!['%'],
{
    let mut r = String::new();
    r.append("%");
    r.append(text.as_str());
    r.append("%");
    proof {
        reveal_strlit("%");
    }
    assert(r@ =~= seq!['%'] + text@ + seq!['%']);
    r
}

/// A stored account as a search hit: whether it is on the friend list `friends`.
pub open spec fn stored_hit_view(user: UserInfo, friends: Seq<String>) -> (String, String, bool) {
    (user.name, user.id, has_id(friends, user.id@))
}

/// Holds of every account but `id`.
pub open spec fn not_account(id: Seq<char>) -> spec_fn(UserInfo) -> bool {
    |u: UserInfo| u.id@ != id
}

/// The hits a stored search by `searcher` lists: the found accounts other
/// than the searcher, in order, each marked with whether it is on the
/// searcher's stored friend list.
pub open spec fn stored_hits(users: Seq<UserInfo>, friends: Seq<String>, searcher: Seq<char>) -> Seq<
    (String, String, bool),
> {
    users.filter(not_account(searcher)).map_values(|u: UserInfo| stored_hit_view(u, friends))
}

/// The accounts a search found, other than the searcher, each marked with
/// whether it is on the searcher's stored friend list.
pub fn search_results(users: &Vec<UserInfo>, friends: &Vec<String>, searcher: &String) -> (r: Vec<
    SearchUserInfo,
>)
    ensures
        r@.map_values(|s: SearchUserInfo| search_info_view(s)) == stored_hits(
            users@,
            friends@,
            searcher@,
        ),
{
    let ghost pred = not_account(searcher@);
    let mut out: Vec<SearchUserInfo> = Vec::new();
    let mut i: usize = 0;
    while i < users.len()
        invariant
            i <= users@.len(),
            pred == not_account(searcher@),
            out@.map_values(|s: SearchUserInfo| search_info_view(s)) == users@.take(
                i as int,
            ).filter(pred).map_values(|u: UserInfo| stored_hit_view(u, friends@)),
        decreases users@.len() - i,
    {
        proof {
            reveal_with_fuel(Seq::<_>::filter, 1);
            assert(users@.take(i + 1).drop_last() =~= users@.take(i as int));
        }
        if users[i].id != *searcher {
            let status = crate::message::contains_user_id(friends, &users[i].id);
            let ghost before = out@;
            out.push(SearchUserInfo::new(&users[i], status));
            assert(out@.map_values(|s: SearchUserInfo| search_info_view(s)) =~= before.map_values(
                |s: SearchUserInfo| search_info_view(s),
            ).push(stored_hit_view(users@[i as int], friends@)));
        }
        assert(users@.take(i + 1).filter(pred).map_values(
            |u: UserInfo| stored_hit_view(u, friends@),
        ) =~= out@.map_values(|s: SearchUserInfo| search_info_view(s)));
        i = i + 1;
    }
    assert(users@.take(users@.len() as int) =~= users@);
    out
}

} // verus!
