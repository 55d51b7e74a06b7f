use vstd::prelude::*;
use crate::lists::{find_user, has_user, rooms_wf, FriendList, MessageList, RoomList, UserList};
use crate::message::{contains_user_id, has_id};
use crate::types::{CreateRoom, LoginInfo, Message, Refusal, Room, RoomCreated, RoomId, User, UserInfo};

verus! {

/// How many entries of `friends` have an id among `members`.
pub open spec fn friends_among(friends: Seq<UserInfo>, members: Seq<String>) -> nat
    decreases friends.len(),
{
    if friends.len() == 0 {
        0
    } else {
        friends_among(friends.drop_last(), members) + if has_id(members, friends.last().id@) {
            1nat
        } else {
            0nat
        }
    }
}

/// Some account has the password `password`.
pub open spec fn password_in_use(users: Seq<User>, password: Seq<char>) -> bool {
    exists|i: int| 0 <= i < users.len() && #[trigger] users[i].password@ == password
}

/// Every id in `ids` belongs to an account.
pub open spec fn all_known(users: Seq<User>, ids: Seq<String>) -> bool {
    forall|j: int| 0 <= j < ids.len() ==> has_user(users, #[trigger] ids[j]@)
}

/// Every id in `wanted` is among `members`.
pub open spec fn covers(members: Seq<String>, wanted: Seq<String>) -> bool {
    forall|j: int| 0 <= j < wanted.len() ==> has_id(members, #[trigger] wanted[j]@)
}

/// Some room of `rooms` holds every id in `wanted`.
pub open spec fn room_covering(rooms: Seq<Room>, wanted: Seq<String>) -> bool {
    exists|i: int| 0 <= i < rooms.len() && covers(#[trigger] rooms[i].members@, wanted)
}

/// The checks a room request meets before its creator is looked up. The
/// friend test compares the bitwise complement of the number of the
/// creator's friends among the members with the number of members, so it
/// refuses only when that count and the number of members add up to
/// `usize::MAX`. Then some account must have the given password (`Ok(false)`
/// when none has), and every requested member must have an account.
pub open spec fn precheck_reply(
    friends: Map<Seq<char>, Seq<UserInfo>>,
    users: Seq<User>,
    request: CreateRoom,
) -> Result<bool, Refusal> {
    let id = request.user.id@;
    if friends.contains_key(id) && friends_among(friends[id], request.members@)
        + request.members@.len() == usize::MAX {
        Err(Refusal::NotFriendMember)
    } else if !password_in_use(users, request.user.password@) {
        Ok(false)
    } else if !all_known(users, request.members@) {
        Err(Refusal::UnknownMembers)
    } else {
        Ok(true)
    }
}

/// The answer to `request`.
pub open spec fn create_reply(
    friends: Map<Seq<char>, Seq<UserInfo>>,
    users: Seq<User>,
    rooms: Seq<Room>,
    request: CreateRoom,
) -> Result<RoomCreated, Refusal> {
    match precheck_reply(friends, users, request) {
        Err(e) => Err(e),
        Ok(false) => Ok(RoomCreated::PasswordRejected),
        Ok(true) => if room_covering(rooms, request.members@) {
            Err(Refusal::RoomExists)
        } else {
            Ok(RoomCreated::Created)
        },
    }
}

fn count_friends_among(friends: &Vec<UserInfo>, members: &Vec<String>) -> (r: usize)
    ensures
        r == friends_among(friends@, members@),
{
    let mut count: usize = 0;
    let mut i: usize = 0;
    while i < friends.len()
        invariant
            i <= friends@.len(),
            count == friends_among(friends@.take(i as int), members@),
            count <= i,
        decreases friends@.len() - i,
    {
        assert(friends@.take(i + 1).drop_last() =~= friends@.take(i as int));
        if contains_user_id(members, &friends[i].id) {
            count = count + 1;
        }
        i = i + 1;
    }
    assert(friends@.take(friends@.len() as int) =~= friends@);
    count
}

fn password_used(users: &Vec<User>, password: &String) -> (r: bool)
    ensures
        r == password_in_use(users@, password@),
{
    let mut i: usize = 0;
    while i < users.len()
        invariant
            i <= users@.len(),
            forall|j: int| 0 <= j < i ==> #[trigger] users@[j].password@ != password@,
        decreases users@.len() - i,
    {
        if users[i].password == *password {
            return true;
        }
        i = i + 1;
    }
    false
}

fn all_exist(users: &UserList, ids: &Vec<String>) -> (r: bool)
    ensures
        r == all_known(users@, ids@),
{
    let mut i: usize = 0;
    while i < ids.len()
        invariant
            i <= ids@.len(),
            forall|j: int| 0 <= j < i ==> has_user(users@, #[trigger] ids@[j]@),
        decreases ids@.len() - i,
    {
        if !users.exist(&ids[i]) {
            return false;
        }
        i = i + 1;
    }
    true
}

fn covering_room_exists(rooms: &Vec<Room>, wanted: &Vec<String>) -> (r: bool)
    ensures
        r == room_covering(rooms@, wanted@),
{
    let mut i: usize = 0;
    while i < rooms.len()
        invariant
            i <= rooms@.len(),
            forall|k: int| 0 <= k < i ==> !covers(#[trigger] rooms@[k].members@, wanted@),
        decreases rooms@.len() - i,
    {
        let members = rooms[i].members();
        let mut j: usize = 0;
        let mut all = true;
        while j < wanted.len()
            invariant
                j <= wanted@.len(),
                members@ == rooms@[i as int].members@,
                all ==> forall|m: int| 0 <= m < j ==> has_id(members@, #[trigger] wanted@[m]@),
                !all ==> !covers(members@, wanted@),
            decreases wanted@.len() - j,
        {
            if all && !contains_user_id(members, &wanted[j]) {
                all = false;
            }
            j = j + 1;
        }
        if all {
            return true;
        }
        i = i + 1;
    }
    false
}

/// Runs the checks of a room request that come before the creator is looked up.
pub fn precheck(friend_list: &FriendList, user_list: &UserList, new_room: &CreateRoom) -> (r: Result<
    bool,
    Refusal,
>)
    requires
        friend_list.wf(),
    ensures
        r == precheck_reply(friend_list@, user_list@, *new_room),
{
    match friend_list.get(new_room.user_id()) {
        Some(friends) => {
            let count = count_friends_among(friends, new_room.members());
            // the bitwise complement of the count
            let complement = usize::MAX - count;
            if complement == new_room.members().len() {
                return Err(Refusal::NotFriendMember);
            }
        },
        None => {},
    }
    if !password_used(user_list.as_vec(), new_room.user_password()) {
        return Ok(false);
    }
    if !all_exist(user_list, new_room.members()) {
        return Err(Refusal::UnknownMembers);
    }
    Ok(true)
}

/// Opens a room for `new_room`: when the checks pass and no room holds all
/// the requested members, the room gets the next id, the requested members
/// and then the creator, and an empty message list.
pub fn create(
    friend_list: &FriendList,
    user_list: &UserList,
    message_list: &mut MessageList,
    room_list: &mut RoomList,
    new_room: &CreateRoom,
) -> (r: Result<RoomCreated, Refusal>)
    requires
        friend_list.wf(),
        rooms_wf(old(room_list)@),
        old(room_list)@.len() <= i32::MAX,
        precheck_reply(friend_list@, user_list@, *new_room) == Ok::<bool, Refusal>(true) ==> has_user(
            user_list@,
            new_room.user.id@,
        ),
    ensures
        rooms_wf(final(room_list)@),
        r == create_reply(friend_list@, user_list@, old(room_list)@, *new_room),
        r == Ok::<RoomCreated, Refusal>(RoomCreated::Created) ==> {
            let n = old(room_list)@.len();
            &&& final(room_list)@.len() == n + 1
            &&& final(room_list)@.take(n as int) == old(room_list)@
            &&& final(room_list)@[n as int].id == n
            &&& final(room_list)@[n as int].members@ == new_room.members@.push(new_room.user.id)
            &&& final(message_list)@ == old(message_list)@.insert(n as RoomId, Seq::<Message>::empty())
        },
        r != Ok::<RoomCreated, Refusal>(RoomCreated::Created) ==> {
            &&& final(room_list)@ == old(room_list)@
            &&& final(message_list)@ == old(message_list)@
        },
{
    match precheck(friend_list, user_list, new_room) {
        Err(e) => {
            return Err(e);
        },
        Ok(false) => {
            return Ok(RoomCreated::PasswordRejected);
        },
        Ok(true) => {},
    }
    let requested = new_room.members();
    let mut members: Vec<String> = Vec::new();
    let mut i: usize = 0;
    while i < requested.len()
        invariant
            i <= requested@.len(),
            requested@ == new_room.members@,
            members@ == requested@.take(i as int),
        decreases requested@.len() - i,
    {
        members.push(requested[i].clone());
        assert(members@ =~= requested@.take(i + 1));
        i = i + 1;
    }
    assert(members@ =~= new_room.members@);
    match user_list.find(new_room.user_id()) {
        Some(_) => {
            members.push(new_room.user_id().clone());
        },
        None => {},
    }
    if covering_room_exists(room_list.as_vec(), new_room.members()) {
        return Err(Refusal::RoomExists);
    }
    let id = room_list.new_id();
    message_list.insert(id, Vec::new());
    room_list.push(Room::new(id, members));
    assert(room_list@.take(id as int) =~= old(room_list)@);
    Ok(RoomCreated::Created)
}

/// Holds of every id but `id`.
pub open spec fn other_than(id: Seq<char>) -> spec_fn(String) -> bool {
    |s: String| s@ != id
}

/// A room as listed: its id and its members.
pub open spec fn room_view(room: Room) -> (RoomId, Seq<String>) {
    (room.id, room.members@)
}

/// A room as shown to the account `id`: the other members only.
pub open spec fn shown_to(room: Room, id: Seq<char>) -> (RoomId, Seq<String>) {
    (room.id, room.members@.filter(other_than(id)))
}

/// The rooms the account `id` belongs to, in order.
pub open spec fn rooms_of(rooms: Seq<Room>, id: Seq<char>) -> Seq<Room> {
    rooms.filter(|room: Room| has_id(room.members@, id))
}

/// The answer to asking for the rooms of `get_user`: each room it belongs
/// to, with the other members, when it has an account.
pub open spec fn rooms_reply(users: Seq<User>, rooms: Seq<Room>, get_user: LoginInfo) -> Result<
    Seq<(RoomId, Seq<String>)>,
    Refusal,
> {
    if find_user(users, get_user.id@) is None {
        Err(Refusal::UserIdNotFound(get_user.id))
    } else {
        Ok(rooms_of(rooms, get_user.id@).map_values(|room: Room| shown_to(room, get_user.id@)))
    }
}

pub(crate) fn others(members: &Vec<String>, id: &String) -> (r: Vec<String>)
    ensures
        r@ == members@.filter(other_than(id@)),
{
    let ghost pred = other_than(id@);
    let mut out: Vec<String> = Vec::new();
    let mut i: usize = 0;
    while i < members.len()
        invariant
            i <= members@.len(),
            pred == other_than(id@),
            out@ == members@.take(i as int).filter(pred),
        decreases members@.len() - i,
    {
        proof {
            reveal_with_fuel(Seq::<_>::filter, 1);
            assert(members@.take(i + 1).drop_last() =~= members@.take(i as int));
        }
        if members[i] != *id {
            out.push(members[i].clone());
        }
        i = i + 1;
    }
    assert(members@.take(members@.len() as int) =~= members@);
    out
}

/// The rooms of `rooms` that `id` belongs to, each with its other members.
pub fn rooms_with_member(rooms: &Vec<Room>, id: &String) -> (r: Vec<Room>)
    ensures
        r@.map_values(|room: Room| room_view(room)) == rooms_of(rooms@, id@).map_values(
            |room: Room| shown_to(room, id@),
        ),
{
    let ghost pred = |room: Room| has_id(room.members@, id@);
    let mut out: Vec<Room> = Vec::new();
    let mut i: usize = 0;
    while i < rooms.len()
        invariant
            i <= rooms@.len(),
            pred == (|room: Room| has_id(room.members@, id@)),
            out@.map_values(|room: Room| room_view(room)) == rooms@.take(i as int).filter(
                pred,
            ).map_values(|room: Room| shown_to(room, id@)),
        decreases rooms@.len() - i,
    {
        proof {
            reveal_with_fuel(Seq::<_>::filter, 1);
            assert(rooms@.take(i + 1).drop_last() =~= rooms@.take(i as int));
        }
        let room = &rooms[i];
        if contains_user_id(room.members(), id) {
            let ghost before = out@;
            out.push(Room::new(room.id(), others(room.members(), id)));
            assert(out@.map_values(|room: Room| room_view(room)) =~= before.map_values(
                |room: Room| room_view(room),
            ).push(shown_to(*room, id@)));
        }
        assert(rooms@.take(i + 1).filter(pred).map_values(|room: Room| shown_to(room, id@))
            =~= out@.map_values(|room: Room| room_view(room)));
        i = i + 1;
    }
    assert(rooms@.take(rooms@.len() as int) =~= rooms@);
    out
}

/// The rooms of the account `get_user`, each with its other members.
pub fn get_rooms(user_list: &UserList, room_list: &RoomList, get_user: &LoginInfo) -> (r: Result<
    Vec<Room>,
    Refusal,
>)
    ensures
        match r {
            Ok(v) => rooms_reply(user_list@, room_list@, *get_user) == Ok::<_, Refusal>(
                v@.map_values(|room: Room| room_view(room)),
            ),
            Err(e) => rooms_reply(user_list@, room_list@, *get_user) == Err::<
                Seq<(RoomId, Seq<String>)>,
                _,
            >(e),
        },
{
    match user_list.find(get_user.id()) {
        None => Err(Refusal::UserIdNotFound(get_user.id().clone())),
        Some(_) => Ok(rooms_with_member(room_list.as_vec(), get_user.id())),
    }
}

} // verus!
