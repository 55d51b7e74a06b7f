use vstd::prelude::*;
use crate::lists::{find_room, find_user, rooms_wf, MessageList, RoomList, UserList};
use crate::types::{message_of, viewed, GetMessages, Message, MessageInfo, Refusal, Room, RoomId, User};

verus! {

/// Some entry of `ids` is `id`.
pub open spec fn has_id(ids: Seq<String>, id: Seq<char>) -> bool {
    exists|i: int| 0 <= i < ids.len() && #[trigger] ids[i]@ == id
}

/// Whether some entry of `ids` is `id`.
pub fn contains_user_id(ids: &Vec<String>, id: &String) -> (r: bool)
    ensures
        r == has_id(ids@, id@),
{
    let mut i: usize = 0;
    while i < ids.len()
        invariant
            i <= ids@.len(),
            forall|j: int| 0 <= j < i ==> #[trigger] ids@[j]@ != id@,
        decreases ids@.len() - i,
    {
        if ids[i] == *id {
            return true;
        }
        i = i + 1;
    }
    false
}

/// Posts `message` in its room: appended to the room's messages when the
/// room has a message list, refused otherwise.
pub fn send_message(message_list: &mut MessageList, message: MessageInfo) -> (r: Result<
    (),
    Refusal,
>)
    ensures
        old(message_list)@.contains_key(message.room) ==> {
            &&& r == Ok::<(), Refusal>(())
            &&& final(message_list)@ == old(message_list)@.insert(
                message.room,
                old(message_list)@[message.room].push(message_of(message)),
            )
        },
        !old(message_list)@.contains_key(message.room) ==> {
            &&& r == Err::<(), Refusal>(Refusal::NoMessageList(message.room))
            &&& final(message_list)@ == old(message_list)@
        },
{
    let room = message.room_id();
    match message_list.get(&room) {
        Some(_) => {
            message_list.push_message(room, Message::from(message));
            Ok(())
        },
        None => Err(Refusal::NoMessageList(room)),
    }
}

/// The answer to `get`: the room's messages when the room exists, the
/// requester is a member, has an account, and gave its password, and the
/// room has a message list.
pub open spec fn messages_reply(
    messages: Map<RoomId, Seq<Message>>,
    users: Seq<User>,
    rooms: Seq<Room>,
    get: GetMessages,
) -> Result<Seq<Message>, Refusal> {
    match find_room(rooms, get.room_id) {
        None => Err(Refusal::RoomNotFound(get.room_id)),
        Some(room) => if !has_id(room.members@, get.user.id@) {
            Err(Refusal::NotRoomMember(get.room_id))
        } else {
            match find_user(users, get.user.id@) {
                None => Err(Refusal::RequestUserNotFound(get.user.id)),
                Some(user) => if user.password@ != get.user.password@ {
                    Err(Refusal::PasswordMismatch(get.user.password))
                } else if messages.contains_key(room.id) {
                    Ok(messages[room.id])
                } else {
                    Err(Refusal::MessagesNotFound(get.room_id))
                },
            }
        },
    }
}

/// The messages of a room, for one of its members.
pub fn get_message(
    message_list: &MessageList,
    user_list: &UserList,
    room_list: &RoomList,
    get: &GetMessages,
) -> (r: Result<Vec<Message>, Refusal>)
    requires
        rooms_wf(room_list@),
    ensures
        viewed(r) == messages_reply(message_list@, user_list@, room_list@, *get),
{
    match room_list.find(&get.room_id()) {
        Some(room) => {
            if contains_user_id(room.members(), get.user_id()) {
                match user_list.find(get.user_id()) {
                    Some(user) => {
                        if *user.password() == *get.user_password() {
                            match message_list.get(&room.id()) {
                                Some(v) => {
                                    let out = v.clone();
                                    assert(out@ =~= v@);
                                    Ok(out)
                                },
                                None => Err(Refusal::MessagesNotFound(get.room_id())),
                            }
                        } else {
                            Err(Refusal::PasswordMismatch(get.user_password().clone()))
                        }
                    },
                    None => Err(Refusal::RequestUserNotFound(get.user_id().clone())),
                }
            } else {
                Err(Refusal::NotRoomMember(get.room_id()))
            }
        },
        None => Err(Refusal::RoomNotFound(get.room_id())),
    }
}

} // verus!
