use vstd::prelude::*;
use crate::friend::{add_effect, add_reply, get_reply};
use crate::lists::{
    find_room, find_user, first_user_at, has_user, lemma_find_user_at, lemma_find_user_none,
    lemma_has_user_found, rooms_wf,
};
use crate::message::{has_id, messages_reply};
use crate::room::{create_reply, friends_among, other_than, precheck_reply, rooms_of, rooms_reply, shown_to};
use crate::db::{
    decoded_ids, members_are_friends, not_account, row_has_member, row_shown_to, stored_hit_view, stored_hits, stored_rooms_of,
    text_other_than,
};
use crate::json::ids_of_json;
use crate::types::{
    info_of, login_of, message_of, AddFriend, CreateRoom, GetMessages, Message, MessageInfo,
    LoginInfo, Refusal, Room, RoomCreated, RoomId, User, UserInfo,
};
use crate::text::has_text;
use crate::user::{has_info_id, hit_view, info_reply, login_reply, search_hits};

verus! {

broadcast use vstd::seq_lib::group_filter_ensures;

/// After an account signs up, logging in with its id and password gives back
/// its credentials.
pub proof fn law_login_after_signup(users: Seq<User>, user: User)
    requires
        !has_user(users, user.id@),
    ensures
        login_reply(users.push(user), login_of(user)) == Ok::<_, Refusal>(login_of(user)),
{
    let s = users.push(user);
    assert(first_user_at(s, user.id@, users.len() as int)) by {
        assert forall|j: int| 0 <= j < users.len() implies #[trigger] s[j].id@ != user.id@ by {
            assert(s[j] == users[j]);
        }
    }
    lemma_find_user_at(s, user.id@, users.len() as int);
}

/// A new account's friend list is there and empty.
pub proof fn law_new_account_has_no_friends(
    users: Seq<User>,
    friends: Map<Seq<char>, Seq<UserInfo>>,
    user: User,
)
    requires
        !has_user(users, user.id@),
    ensures
        get_reply(friends.insert(user.id@, Seq::empty()), users.push(user), info_of(user)) == Ok::<
            _,
            Refusal,
        >(Seq::<UserInfo>::empty()),
{
    let s = users.push(user);
    assert(s[users.len() as int].id@ == user.id@);
}

/// After a friend is added, the requester's friend list is the list it had
/// with the friend appended.
pub proof fn law_added_friend_is_listed(
    friends: Map<Seq<char>, Seq<UserInfo>>,
    users: Seq<User>,
    request: AddFriend,
    who: UserInfo,
)
    requires
        add_reply(friends, users, request) is Ok,
        who.id@ == request.user.id@,
    ensures
        get_reply(add_effect(friends, users, request), users, who) == Ok::<_, Refusal>(
            friends[request.user.id@].push(request.friend),
        ),
{
    let id = request.user.id@;
    let k = choose|k: int| first_user_at(users, id, k);
    assert(users[k].id@ == id);
}

/// Adding the same friend a second time is refused with
/// `FriendAlreadyExists`.
pub proof fn law_friend_added_once(
    friends: Map<Seq<char>, Seq<UserInfo>>,
    users: Seq<User>,
    request: AddFriend,
)
    requires
        add_reply(friends, users, request) is Ok,
    ensures
        add_reply(add_effect(friends, users, request), users, request) == Err::<(), _>(
            Refusal::FriendAlreadyExists,
        ),
{
    let id = request.user.id@;
    let list = friends[id].push(request.friend);
    assert(list[list.len() - 1].id@ == request.friend.id@);
    assert(has_info_id(list, request.friend.id@));
}

/// A message posted in a room is the last of the room's messages that a
/// member who may read them gets back.
pub proof fn law_sent_message_is_read(
    messages: Map<RoomId, Seq<Message>>,
    users: Seq<User>,
    rooms: Seq<Room>,
    info: MessageInfo,
    get: GetMessages,
)
    requires
        rooms_wf(rooms),
        messages.contains_key(info.room),
        get.room_id == info.room,
        messages_reply(messages, users, rooms, get) is Ok,
    ensures
        messages_reply(
            messages.insert(info.room, messages[info.room].push(message_of(info))),
            users,
            rooms,
            get,
        ) == Ok::<_, Refusal>(messages[info.room].push(message_of(info))),
{
    assert(find_room(rooms, get.room_id) is Some);
    assert(rooms[get.room_id as int].id == get.room_id);
}

/// Once a room is opened, its creator's room list is the list it had with
/// the new room appended, shown without the creator.
pub proof fn law_created_room_is_listed(
    friends: Map<Seq<char>, Seq<UserInfo>>,
    users: Seq<User>,
    rooms: Seq<Room>,
    request: CreateRoom,
    after: Seq<Room>,
)
    requires
        has_user(users, request.user.id@),
        create_reply(friends, users, rooms, request) == Ok::<_, Refusal>(RoomCreated::Created),
        after.len() == rooms.len() + 1,
        after.take(rooms.len() as int) == rooms,
        after[rooms.len() as int].id == rooms.len(),
        after[rooms.len() as int].members@ == request.members@.push(request.user.id),
    ensures
        rooms_reply(users, after, request.user) == Ok::<_, Refusal>(
            rooms_of(rooms, request.user.id@).map_values(|room: Room| shown_to(room, request.user.id@)).push(
                (
                    rooms.len() as RoomId,
                    request.members@.push(request.user.id).filter(other_than(request.user.id@)),
                ),
            ),
        ),
{
    let id = request.user.id@;
    lemma_has_user_found(users, id);
    let n = rooms.len() as int;
    let room = after[n];
    assert(after.drop_last() =~= rooms) by {
        assert(after.take(n) == rooms);
    }
    let ms = room.members@;
    assert(ms[ms.len() - 1]@ == id);
    assert(has_id(room.members@, id));
    reveal_with_fuel(Seq::<_>::filter, 1);
    assert(rooms_of(after, id) =~= rooms_of(rooms, id).push(room));
    assert(rooms_of(after, id).map_values(|room: Room| shown_to(room, id)) =~= rooms_of(
        rooms,
        id,
    ).map_values(|room: Room| shown_to(room, id)).push(shown_to(room, id)));
}

/// A newly opened room has no messages: its creator, logging in with the
/// stored password, reads an empty list.
pub proof fn law_new_room_has_no_messages(
    messages: Map<RoomId, Seq<Message>>,
    users: Seq<User>,
    rooms: Seq<Room>,
    request: CreateRoom,
    after: Seq<Room>,
    get: GetMessages,
)
    requires
        rooms_wf(rooms),
        rooms.len() <= i32::MAX,
        after.len() == rooms.len() + 1,
        after.take(rooms.len() as int) == rooms,
        after[rooms.len() as int].id == rooms.len(),
        after[rooms.len() as int].members@ == request.members@.push(request.user.id),
        get.room_id == rooms.len(),
        get.user.id@ == request.user.id@,
        find_user(users, get.user.id@) matches Some(u) && u.password@ == get.user.password@,
    ensures
        messages_reply(
            messages.insert(rooms.len() as RoomId, Seq::<Message>::empty()),
            users,
            after,
            get,
        ) == Ok::<_, Refusal>(Seq::<Message>::empty()),
{
    let n = rooms.len() as int;
    let ms = after[n].members@;
    assert(ms[ms.len() - 1]@ == get.user.id@);
    assert(has_id(ms, get.user.id@));
}

/// A search never lists the account that searched.
pub proof fn law_search_skips_searcher(users: Seq<User>, query: UserInfo, searcher: Seq<char>, i: int)
    requires
        0 <= i < search_hits(users, query, searcher).len(),
    ensures
        search_hits(users, query, searcher)[i].id@ != searcher,
{
}

/// A room list never shows the account that asked for it among a room's
/// members.
pub proof fn law_rooms_shown_without_requester(room: Room, id: Seq<char>, i: int)
    requires
        0 <= i < shown_to(room, id).1.len(),
    ensures
        shown_to(room, id).1[i]@ != id,
{
}

proof fn lemma_filter_from<A>(s: Seq<A>, p: spec_fn(A) -> bool, i: int)
    requires
        0 <= i < s.filter(p).len(),
    ensures
        exists|j: int| 0 <= j < s.len() && s[j] == s.filter(p)[i],
    decreases s.len(),
{
    reveal(Seq::filter);
    let init = s.drop_last();
    let g = init.filter(p);
    if p(s.last()) && i == g.len() {
        assert(s[s.len() - 1] == s.filter(p)[i]);
    } else {
        assert(s.filter(p)[i] == g[i]);
        lemma_filter_from(init, p, i);
        let j = choose|j: int| 0 <= j < init.len() && init[j] == g[i];
        assert(s[j] == init[j]);
    }
}

/// A stored room whose member list reads back as `members` (as every list
/// that `db::id_list_text` writes does) is listed for each of its members,
/// with the other members.
pub proof fn law_stored_room_is_listed(
    rows: Seq<(RoomId, Seq<char>)>,
    k: int,
    members: Seq<Seq<char>>,
    member: Seq<char>,
)
    requires
        0 <= k < rows.len(),
        ids_of_json(rows[k].1) == Some(members),
        members.contains(member),
    ensures
        stored_rooms_of(rows, member).contains((rows[k].0, members.filter(text_other_than(member)))),
{
    let pred = |row: (RoomId, Seq<char>)| row_has_member(row, member);
    assert(pred(rows[k]));
    let f = rows.filter(pred);
    assert(f.contains(rows[k]));
    let j = choose|j: int| 0 <= j < f.len() && f[j] == rows[k];
    let shown = f.map_values(|row: (RoomId, Seq<char>)| row_shown_to(row, member));
    assert(shown[j] == row_shown_to(rows[k], member));
}

/// Every hit of a stored search is a found account other than the searcher,
/// with its name and id, marked as a friend exactly when its id is on the
/// searcher's stored friend list.
pub proof fn law_stored_search_hits(
    users: Seq<UserInfo>,
    friends: Seq<String>,
    searcher: Seq<char>,
    i: int,
)
    requires
        0 <= i < stored_hits(users, friends, searcher).len(),
    ensures
        stored_hits(users, friends, searcher)[i].1@ != searcher,
        stored_hits(users, friends, searcher)[i].2 == has_id(
            friends,
            stored_hits(users, friends, searcher)[i].1@,
        ),
        exists|j: int|
            0 <= j < users.len() && users[j].name == stored_hits(users, friends, searcher)[i].0
                && users[j].id == stored_hits(users, friends, searcher)[i].1,
{
    let f = users.filter(not_account(searcher));
    let u = f[i];
    assert(stored_hits(users, friends, searcher)[i] == stored_hit_view(u, friends));
    assert(not_account(searcher)(u));
    lemma_filter_from(users, not_account(searcher), i);
}

/// Some room of `rooms` holds every id in `ids`.
pub open spec fn some_room_holds_all(rooms: Seq<Room>, ids: Seq<String>) -> bool {
    exists|i: int|
        0 <= i < rooms.len() && forall|j: int|
            0 <= j < ids.len() ==> has_id(#[trigger] rooms[i].members@, #[trigger] ids[j]@)
}

/// Some id in `ids` is not among `members`.
pub open spec fn misses_one(members: Seq<String>, ids: Seq<String>) -> bool {
    exists|j: int| 0 <= j < ids.len() && !has_id(members, #[trigger] ids[j]@)
}

/// Every room of `rooms` misses some id in `ids`.
pub open spec fn every_room_misses_one(rooms: Seq<Room>, ids: Seq<String>) -> bool {
    forall|i: int| 0 <= i < rooms.len() ==> misses_one(#[trigger] rooms[i].members@, ids)
}

/// `entry` shows `room` to the account `id`: the room's id, and as members
/// exactly the room's members other than `id`; the room holds `id`.
pub open spec fn shows_room(entry: (RoomId, Seq<String>), room: Room, id: Seq<char>) -> bool {
    &&& entry.0 == room.id
    &&& has_id(room.members@, id)
    &&& forall|m: int|
        0 <= m < entry.1.len() ==> #[trigger] entry.1[m]@ != id && has_id(room.members@, entry.1[m]@)
    &&& forall|k: int|
        0 <= k < room.members@.len() && #[trigger] room.members@[k]@ != id ==> has_id(
            entry.1,
            room.members@[k]@,
        )
}

/// `entry` shows one of `rooms` to the account `id`.
pub open spec fn shows_one_of(entry: (RoomId, Seq<String>), rooms: Seq<Room>, id: Seq<char>) -> bool {
    exists|j: int| 0 <= j < rooms.len() && shows_room(entry, #[trigger] rooms[j], id)
}

/// Some entry of `list` is for the room with id `room`.
pub open spec fn lists_room(list: Seq<(RoomId, Seq<String>)>, room: RoomId) -> bool {
    exists|t: int| 0 <= t < list.len() && (#[trigger] list[t]).0 == room
}

/// A room request is refused as `RoomExists` only when some existing room
/// holds every requested member.
pub proof fn law_room_exists_only_when_all_members_are_in_one_room(
    friends: Map<Seq<char>, Seq<UserInfo>>,
    users: Seq<User>,
    rooms: Seq<Room>,
    request: CreateRoom,
)
    requires
        create_reply(friends, users, rooms, request) == Err::<RoomCreated, _>(Refusal::RoomExists),
    ensures
        some_room_holds_all(rooms, request.members@),
{
}

/// When every existing room misses at least one requested member, a room
/// request that passes the earlier checks opens the room.
pub proof fn law_room_opens_when_no_room_holds_all_members(
    friends: Map<Seq<char>, Seq<UserInfo>>,
    users: Seq<User>,
    rooms: Seq<Room>,
    request: CreateRoom,
)
    requires
        precheck_reply(friends, users, request) == Ok::<bool, Refusal>(true),
        every_room_misses_one(rooms, request.members@),
    ensures
        create_reply(friends, users, rooms, request) == Ok::<_, Refusal>(RoomCreated::Created),
{
    let ms = request.members@;
    if crate::room::room_covering(rooms, ms) {
        let i = choose|i: int| 0 <= i < rooms.len() && crate::room::covers(#[trigger] rooms[i].members@, ms);
        let j = choose|j: int|
            0 <= j < ms.len() && !has_id(#[trigger] rooms[i].members@, #[trigger] ms[j]@);
        assert(has_id(rooms[i].members@, ms[j]@));
    }
}

/// The checks before a room is opened pass exactly when the friend test does
/// not fire, some account has the given password and every requested member
/// has an account; without such a password the answer is `Ok(false)`.
pub proof fn law_room_precheck(
    friends: Map<Seq<char>, Seq<UserInfo>>,
    users: Seq<User>,
    request: CreateRoom,
)
    ensures
        precheck_reply(friends, users, request) == Ok::<bool, Refusal>(true) <==> {
            &&& !(friends.contains_key(request.user.id@) && friends_among(
                friends[request.user.id@],
                request.members@,
            ) + request.members@.len() == usize::MAX)
            &&& exists|i: int| 0 <= i < users.len() && #[trigger] users[i].password@ == request.user.password@
            &&& forall|j: int|
                0 <= j < request.members@.len() ==> has_user(users, #[trigger] request.members@[j]@)
        },
        precheck_reply(friends, users, request) == Ok::<bool, Refusal>(false) <==> {
            &&& !(friends.contains_key(request.user.id@) && friends_among(
                friends[request.user.id@],
                request.members@,
            ) + request.members@.len() == usize::MAX)
            &&& forall|i: int| 0 <= i < users.len() ==> #[trigger] users[i].password@ != request.user.password@
        },
{
}

/// Each search hit is one of the accounts, other than the searcher, whose
/// name holds the query's name or whose id holds the query's id; it is shown
/// with its own name and id, and marked as a friend exactly when the
/// searcher's friend list holds an entry with the hit's id. Every such
/// account is a hit.
pub proof fn law_search_results(
    users: Seq<User>,
    query: UserInfo,
    searcher: Seq<char>,
    friends: Seq<UserInfo>,
)
    ensures
        forall|i: int|
            0 <= i < search_hits(users, query, searcher).len() ==> {
                let hit = #[trigger] search_hits(users, query, searcher)[i];
                let shown = search_hits(users, query, searcher).map_values(
                    |u: User| hit_view(u, friends),
                )[i];
                &&& users.contains(hit)
                &&& hit.id@ != searcher
                &&& (has_text(hit.name@, query.name@) || has_text(hit.id@, query.id@))
                &&& shown.0 == hit.name
                &&& shown.1 == hit.id
                &&& shown.2 == has_info_id(friends, hit.id@)
            },
        forall|j: int|
            0 <= j < users.len() && users[j].id@ != searcher && (has_text(users[j].name@, query.name@)
                || has_text(users[j].id@, query.id@)) ==> search_hits(users, query, searcher).contains(
                #[trigger] users[j],
            ),
{
    let pred = crate::user::listed_by(query, searcher);
    assert forall|i: int| 0 <= i < search_hits(users, query, searcher).len() implies users.contains(
        #[trigger] search_hits(users, query, searcher)[i],
    ) by {
        lemma_filter_from(users, pred, i);
    }
}

/// With the right credentials, an existing friend list and a friend whose id
/// differs from the requester's, adding a friend whose id is not yet on the
/// list succeeds and appends it; `FriendAlreadyExists` comes only when an
/// entry with the friend's id is on the list.
pub proof fn law_add_friend_by_id(
    friends: Map<Seq<char>, Seq<UserInfo>>,
    users: Seq<User>,
    request: AddFriend,
)
    ensures
        ({
            let id = request.user.id@;
            &&& request.friend.id@ != id
            &&& find_user(users, id) matches Some(u) && u.password@ == request.user.password@
            &&& friends.contains_key(id)
            &&& !has_info_id(friends[id], request.friend.id@)
        }) ==> {
            &&& add_reply(friends, users, request) == Ok::<(), Refusal>(())
            &&& add_effect(friends, users, request) == friends.insert(
                request.user.id@,
                friends[request.user.id@].push(request.friend),
            )
        },
        add_reply(friends, users, request) == Err::<(), _>(Refusal::FriendAlreadyExists) ==> has_info_id(
            friends[request.user.id@],
            request.friend.id@,
        ),
{
}

/// The account page of an account with a friend list carries its name, its
/// id and exactly its stored friend list, the list that asking for its
/// friends gives; it is refused only when the account or its list is missing.
pub proof fn law_account_page_lists_all_friends(
    users: Seq<User>,
    friends: Map<Seq<char>, Seq<UserInfo>>,
    who: UserInfo,
)
    ensures
        (find_user(users, who.id@) is Some && friends.contains_key(who.id@)) <==> info_reply(
            users,
            friends,
            who.id@,
        ) is Ok,
        info_reply(users, friends, who.id@) matches Ok(page) ==> {
            &&& page.1 == friends[who.id@]
            &&& page.0.id == find_user(users, who.id@)->0.id
            &&& page.0.name == find_user(users, who.id@)->0.name
            &&& get_reply(friends, users, who) == Ok::<_, Refusal>(page.1)
        },
{
    if info_reply(users, friends, who.id@) is Ok {
        let k = choose|k: int| first_user_at(users, who.id@, k);
        assert(users[k].id@ == who.id@);
    }
}

/// In an existing room, an account whose id is anywhere among the members
/// and who gives its stored password reads the room's messages;
/// `NotRoomMember` comes only when the id is not among the members.
pub proof fn law_members_read_messages(
    messages: Map<RoomId, Seq<Message>>,
    users: Seq<User>,
    rooms: Seq<Room>,
    get: GetMessages,
)
    requires
        rooms_wf(rooms),
    ensures
        ({
            &&& 0 <= get.room_id < rooms.len()
            &&& has_id(rooms[get.room_id as int].members@, get.user.id@)
            &&& find_user(users, get.user.id@) matches Some(u) && u.password@ == get.user.password@
            &&& messages.contains_key(get.room_id)
        }) ==> messages_reply(messages, users, rooms, get) == Ok::<_, Refusal>(messages[get.room_id]),
        messages_reply(messages, users, rooms, get) == Err::<Seq<Message>, _>(
            Refusal::NotRoomMember(get.room_id),
        ) ==> {
            &&& 0 <= get.room_id < rooms.len()
            &&& !has_id(rooms[get.room_id as int].members@, get.user.id@)
        },
{
    if 0 <= get.room_id < rooms.len() {
        assert(rooms[get.room_id as int].id == get.room_id);
    }
}

/// Logging in succeeds exactly when an account has the id and its stored
/// password is the one given, and then answers that account's credentials;
/// an unknown id is answered `UserNotFound`, a wrong password
/// `NotMatchPassword`.
pub proof fn law_login(users: Seq<User>, login: LoginInfo)
    ensures
        (find_user(users, login.id@) matches Some(u) && u.password@ == login.password@) ==> login_reply(
            users,
            login,
        ) == Ok::<_, Refusal>(login_of(find_user(users, login.id@)->0)),
        login_reply(users, login) matches Ok(l) ==> {
            &&& find_user(users, login.id@) matches Some(u) && u.password@ == login.password@
            &&& l.id@ == login.id@
            &&& l.password@ == login.password@
        },
        login_reply(users, login) == Err::<LoginInfo, _>(Refusal::UserNotFound) <==> !has_user(
            users,
            login.id@,
        ),
        login_reply(users, login) == Err::<LoginInfo, _>(Refusal::NotMatchPassword) ==> (find_user(
            users,
            login.id@,
        ) matches Some(u) && u.password@ != login.password@),
{
    if has_user(users, login.id@) {
        lemma_has_user_found(users, login.id@);
    } else {
        lemma_find_user_none(users, login.id@);
    }
    if login_reply(users, login) is Ok {
        let k = choose|k: int| first_user_at(users, login.id@, k);
        assert(users[k].id@ == login.id@);
    }
}

/// Asking for a friend list answers the stored list of an account that
/// exists and has one; an unknown account is answered `UserNotFound`.
pub proof fn law_friend_list(friends: Map<Seq<char>, Seq<UserInfo>>, users: Seq<User>, who: UserInfo)
    ensures
        get_reply(friends, users, who) matches Ok(list) ==> has_user(users, who.id@) && friends.contains_key(
            who.id@,
        ) && list == friends[who.id@],
        has_user(users, who.id@) && friends.contains_key(who.id@) ==> get_reply(friends, users, who)
            == Ok::<_, Refusal>(friends[who.id@]),
        !has_user(users, who.id@) ==> get_reply(friends, users, who) == Err::<Seq<UserInfo>, _>(
            Refusal::UserNotFound,
        ),
{
}

/// A friend is added only for a requester with the right password, an
/// existing friend list that lacks the friend's id, and a friend other than
/// the requester; a refusal other than `FriendListCreated` changes nothing.
pub proof fn law_add_friend_needs_credentials(
    friends: Map<Seq<char>, Seq<UserInfo>>,
    users: Seq<User>,
    request: AddFriend,
)
    ensures
        add_reply(friends, users, request) is Ok ==> {
            let id = request.user.id@;
            &&& request.friend.id@ != id
            &&& find_user(users, id) matches Some(u) && u.password@ == request.user.password@
            &&& friends.contains_key(id)
            &&& !has_info_id(friends[id], request.friend.id@)
        },
        (add_reply(friends, users, request) is Err && add_reply(friends, users, request) != Err::<
            (),
            _,
        >(Refusal::FriendListCreated)) ==> add_effect(friends, users, request) == friends,
{
}

/// Messages are read only by a member of an existing room who has an
/// account and gives its stored password, and they are that room's stored
/// messages.
pub proof fn law_messages_only_for_members(
    messages: Map<RoomId, Seq<Message>>,
    users: Seq<User>,
    rooms: Seq<Room>,
    get: GetMessages,
)
    requires
        rooms_wf(rooms),
    ensures
        messages_reply(messages, users, rooms, get) matches Ok(read) ==> {
            &&& 0 <= get.room_id < rooms.len()
            &&& has_id(rooms[get.room_id as int].members@, get.user.id@)
            &&& find_user(users, get.user.id@) matches Some(u) && u.password@ == get.user.password@
            &&& messages.contains_key(get.room_id)
            &&& read == messages[get.room_id]
        },
        !(0 <= get.room_id < rooms.len()) ==> messages_reply(messages, users, rooms, get) == Err::<
            Seq<Message>,
            _,
        >(Refusal::RoomNotFound(get.room_id)),
{
    if 0 <= get.room_id < rooms.len() {
        assert(rooms[get.room_id as int].id == get.room_id);
    }
}

/// A room is opened only when the earlier checks pass and every existing room
/// misses some requested member; the password is turned down exactly when
/// the earlier checks answer `Ok(false)`.
pub proof fn law_room_created_only_after_checks(
    friends: Map<Seq<char>, Seq<UserInfo>>,
    users: Seq<User>,
    rooms: Seq<Room>,
    request: CreateRoom,
)
    ensures
        create_reply(friends, users, rooms, request) == Ok::<_, Refusal>(RoomCreated::Created) ==> {
            &&& precheck_reply(friends, users, request) == Ok::<bool, Refusal>(true)
            &&& every_room_misses_one(rooms, request.members@)
        },
        create_reply(friends, users, rooms, request) == Ok::<_, Refusal>(
            RoomCreated::PasswordRejected,
        ) <==> precheck_reply(friends, users, request) == Ok::<bool, Refusal>(false),
{
    if create_reply(friends, users, rooms, request) == Ok::<_, Refusal>(RoomCreated::Created) {
        let ms = request.members@;
        assert(every_room_misses_one(rooms, ms)) by {
            assert forall|i: int| 0 <= i < rooms.len() implies misses_one(#[trigger] rooms[i].members@, ms) by {
                assert(!crate::room::covers(rooms[i].members@, ms));
                let j = choose|j: int|
                    !(0 <= j < ms.len() ==> has_id(rooms[i].members@, #[trigger] ms[j]@));
                assert(!has_id(rooms[i].members@, ms[j]@));
            }
        }
    }
}

/// Every room listed for an account is an existing room that holds the
/// account, shown with exactly its other members; every room that holds the
/// account is listed; an unknown account is refused.
pub proof fn law_room_listing(users: Seq<User>, rooms: Seq<Room>, login: LoginInfo)
    ensures
        rooms_reply(users, rooms, login) is Ok <==> has_user(users, login.id@),
        rooms_reply(users, rooms, login) matches Ok(list) ==> {
            &&& forall|t: int| 0 <= t < list.len() ==> shows_one_of(#[trigger] list[t], rooms, login.id@)
            &&& forall|j: int|
                0 <= j < rooms.len() && has_id(#[trigger] rooms[j].members@, login.id@) ==> lists_room(
                    list,
                    rooms[j].id,
                )
        },
{
    let id = login.id@;
    if has_user(users, id) {
        lemma_has_user_found(users, id);
    } else {
        lemma_find_user_none(users, id);
    }
    if has_user(users, id) {
        let pred = |room: Room| has_id(room.members@, id);
        let of = rooms_of(rooms, id);
        let list = of.map_values(|room: Room| shown_to(room, id));
        assert forall|t: int| 0 <= t < list.len() implies shows_one_of(#[trigger] list[t], rooms, id) by {
            lemma_filter_from(rooms, pred, t);
            let j = choose|j: int| 0 <= j < rooms.len() && rooms[j] == of[t];
            let rm = rooms[j].members@;
            let shown = rm.filter(other_than(id));
            assert(list[t] == shown_to(of[t], id));
            assert(pred(of[t]));
            assert forall|m: int| 0 <= m < shown.len() implies #[trigger] shown[m]@ != id && has_id(
                rm,
                shown[m]@,
            ) by {
                assert(other_than(id)(shown[m]));
                lemma_filter_from(rm, other_than(id), m);
                let k = choose|k: int| 0 <= k < rm.len() && rm[k] == shown[m];
                assert(rm[k]@ == shown[m]@);
            }
            assert forall|k: int| 0 <= k < rm.len() && #[trigger] rm[k]@ != id implies has_id(
                shown,
                rm[k]@,
            ) by {
                assert(other_than(id)(rm[k]));
                assert(shown.contains(rm[k]));
                let m = choose|m: int| 0 <= m < shown.len() && shown[m] == rm[k];
                assert(shown[m]@ == rm[k]@);
            }
            assert(shows_room(list[t], rooms[j], id));
        }
        assert forall|j: int| 0 <= j < rooms.len() && has_id(#[trigger] rooms[j].members@, id) implies lists_room(
            list,
            rooms[j].id,
        ) by {
            assert(pred(rooms[j]));
            assert(of.contains(rooms[j]));
            let t = choose|t: int| 0 <= t < of.len() && of[t] == rooms[j];
            assert(list[t] == shown_to(of[t], id));
            assert(list[t].0 == rooms[j].id);
        }
    }
}

/// Every room listed from the stored rows is a stored row that holds the
/// account, shown with exactly its other members.
pub proof fn law_stored_rooms_are_rows_of_the_account(
    rows: Seq<(RoomId, Seq<char>)>,
    member: Seq<char>,
    t: int,
)
    requires
        0 <= t < stored_rooms_of(rows, member).len(),
    ensures
        exists|k: int|
            0 <= k < rows.len() && #[trigger] rows[k].0 == stored_rooms_of(rows, member)[t].0
                && decoded_ids(rows[k].1).contains(member) && (forall|m: Seq<char>|
                stored_rooms_of(rows, member)[t].1.contains(m) <==> (m != member && decoded_ids(
                    rows[k].1,
                ).contains(m))),
{
    let pred = |row: (RoomId, Seq<char>)| row_has_member(row, member);
    let f = rows.filter(pred);
    lemma_filter_from(rows, pred, t);
    let k = choose|k: int| 0 <= k < rows.len() && rows[k] == f[t];
    assert(pred(f[t]));
    let d = decoded_ids(rows[k].1);
    let shown = d.filter(text_other_than(member));
    assert(stored_rooms_of(rows, member)[t] == row_shown_to(f[t], member));
    assert forall|m: Seq<char>| shown.contains(m) <==> (m != member && d.contains(m)) by {
        if shown.contains(m) {
            let x = choose|x: int| 0 <= x < shown.len() && shown[x] == m;
            assert(text_other_than(member)(shown[x]));
            lemma_filter_from(d, text_other_than(member), x);
        }
        if m != member && d.contains(m) {
            let x = choose|x: int| 0 <= x < d.len() && d[x] == m;
            assert(text_other_than(member)(d[x]));
        }
    }
    assert(rows[k].0 == stored_rooms_of(rows, member)[t].0);
}

/// Every found account other than the searcher is a hit of a stored search.
pub proof fn law_stored_search_lists_every_other_account(
    users: Seq<UserInfo>,
    friends: Seq<String>,
    searcher: Seq<char>,
    j: int,
)
    requires
        0 <= j < users.len(),
        users[j].id@ != searcher,
    ensures
        exists|t: int|
            0 <= t < stored_hits(users, friends, searcher).len() && #[trigger] stored_hits(
                users,
                friends,
                searcher,
            )[t].1 == users[j].id && stored_hits(users, friends, searcher)[t].0 == users[j].name,
{
    let f = users.filter(not_account(searcher));
    assert(not_account(searcher)(users[j]));
    assert(f.contains(users[j]));
    let t = choose|t: int| 0 <= t < f.len() && f[t] == users[j];
    assert(stored_hits(users, friends, searcher)[t] == stored_hit_view(f[t], friends));
    assert(stored_hits(users, friends, searcher)[t].1 == users[j].id);
    assert(stored_hits(users, friends, searcher)[t].0 == users[j].name);
}

/// A text holds every text that is placed inside it, and nothing longer
/// than itself.
pub proof fn law_text_holds_what_it_contains(a: Seq<char>, needle: Seq<char>, b: Seq<char>, hay: Seq<char>)
    ensures
        has_text(a + needle + b, needle),
        has_text(hay, needle) ==> needle.len() <= hay.len(),
{
    let h = a + needle + b;
    assert(h.subrange(a.len() as int, (a.len() + needle.len()) as int) =~= needle);
}

/// A stored friend list covers a room's members when it holds each of them
/// but the creator: the empty list of members is covered, and adding a
/// member keeps the list covered exactly when that member is the creator or
/// on the friend list.
pub proof fn law_members_are_friends(friends: Seq<String>, members: Seq<String>, x: String, user_id: Seq<char>)
    ensures
        members_are_friends(friends, Seq::<String>::empty(), user_id),
        members_are_friends(friends, members.push(x), user_id) <==> (members_are_friends(
            friends,
            members,
            user_id,
        ) && (x@ == user_id || has_id(friends, x@))),
{
    let p = members.push(x);
    if members_are_friends(friends, p, user_id) {
        assert forall|j: int| 0 <= j < members.len() implies #[trigger] members[j]@ == user_id || has_id(
            friends,
            members[j]@,
        ) by {
            assert(p[j] == members[j]);
        }
        assert(p[members.len() as int] == x);
    }
    if members_are_friends(friends, members, user_id) && (x@ == user_id || has_id(friends, x@)) {
        assert forall|j: int| 0 <= j < p.len() implies #[trigger] p[j]@ == user_id || has_id(
            friends,
            p[j]@,
        ) by {
            if j < members.len() {
                assert(p[j] == members[j]);
            }
        }
    }
}

} // verus!
