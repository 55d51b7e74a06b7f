use chat_server::friend;
use chat_server::lists::{FriendList, MessageList, RoomList, UserList};
use chat_server::message;
use chat_server::room;
use chat_server::types::{
    AddFriend, CreateRoom, GetMessages, LoginInfo, Message, MessageInfo, Refusal, Room, RoomCreated,
    User, UserInfo,
};
use chat_server::user;

fn s(text: &str) -> String {
    text.to_string()
}

fn setup() -> (UserList, RoomList, MessageList) {
    let mut users = UserList::new();
    let mut friends = FriendList::new();
    for (n, i, p) in [("Alice", "alice", "pw1"), ("Bob", "bob", "pw2"), ("Carol", "carol", "pw3")] {
        assert!(user::create(&mut users, &mut friends, User::new(s(n), s(i), s(p))).is_ok());
    }
    let add = AddFriend::new(LoginInfo::new(s("alice"), s("pw1")), UserInfo::new(s("Bob"), s("bob")));
    assert_eq!(friend::add(&mut friends, &users, add), Ok(()));
    let mut rooms = RoomList::new();
    let mut messages = MessageList::new();
    let req = CreateRoom::new(LoginInfo::new(s("alice"), s("pw1")), vec![s("bob")]);
    assert_eq!(
        room::create(&friends, &users, &mut messages, &mut rooms, &req),
        Ok(RoomCreated::Created)
    );
    (users, rooms, messages)
}

fn post(text: &str, id: &str, password: &str) -> MessageInfo {
    MessageInfo::new(0, s(text), LoginInfo::new(s(id), s(password)))
}

#[test]
fn sent_messages_are_read_back_in_order() {
    let (users, rooms, mut messages) = setup();
    assert_eq!(message::send_message(&mut messages, post("hi", "alice", "pw1")), Ok(()));
    assert_eq!(message::send_message(&mut messages, post("hello", "bob", "pw2")), Ok(()));
    let get = GetMessages::new(0, User::new(s("Bob"), s("bob"), s("pw2")));
    let read = message::get_message(&messages, &users, &rooms, &get).unwrap();
    assert_eq!(
        read,
        vec![
            Message { text: s("hi"), user: LoginInfo::new(s("alice"), s("pw1")) },
            Message { text: s("hello"), user: LoginInfo::new(s("bob"), s("pw2")) },
        ]
    );
}

#[test]
fn message_to_a_room_without_list_is_refused() {
    let (_, _, mut messages) = setup();
    let info = MessageInfo::new(7, s("hi"), LoginInfo::new(s("alice"), s("pw1")));
    assert_eq!(message::send_message(&mut messages, info), Err(Refusal::NoMessageList(7)));
}

#[test]
fn reading_an_unknown_room_is_refused() {
    let (users, rooms, messages) = setup();
    let get = GetMessages::new(3, User::new(s("Bob"), s("bob"), s("pw2")));
    assert_eq!(message::get_message(&messages, &users, &rooms, &get), Err(Refusal::RoomNotFound(3)));
}

#[test]
fn reading_by_a_non_member_is_refused() {
    let (users, rooms, messages) = setup();
    let get = GetMessages::new(0, User::new(s("Carol"), s("carol"), s("pw3")));
    assert_eq!(message::get_message(&messages, &users, &rooms, &get), Err(Refusal::NotRoomMember(0)));
}

#[test]
fn reading_by_a_member_without_account_is_refused() {
    let mut rooms = RoomList::new();
    rooms.push(Room::new(0, vec![s("ghost")]));
    let users = UserList::new();
    let messages = MessageList::new();
    let get = GetMessages::new(0, User::new(s("Ghost"), s("ghost"), s("x")));
    assert_eq!(
        message::get_message(&messages, &users, &rooms, &get),
        Err(Refusal::RequestUserNotFound(s("ghost")))
    );
}

#[test]
fn reading_with_wrong_password_is_refused() {
    let (users, rooms, messages) = setup();
    let get = GetMessages::new(0, User::new(s("Bob"), s("bob"), s("guess")));
    assert_eq!(
        message::get_message(&messages, &users, &rooms, &get),
        Err(Refusal::PasswordMismatch(s("guess")))
    );
}

#[test]
fn reading_a_room_without_message_list_is_refused() {
    let mut rooms = RoomList::new();
    rooms.push(Room::new(0, vec![s("alice")]));
    let mut users = UserList::new();
    users.push(User::new(s("Alice"), s("alice"), s("pw1")));
    let messages = MessageList::new();
    let get = GetMessages::new(0, User::new(s("Alice"), s("alice"), s("pw1")));
    assert_eq!(
        message::get_message(&messages, &users, &rooms, &get),
        Err(Refusal::MessagesNotFound(0))
    );
}
