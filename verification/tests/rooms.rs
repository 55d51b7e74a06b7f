use chat_server::friend;
use chat_server::lists::{FriendList, MessageList, RoomList, UserList};
use chat_server::message;
use chat_server::room;
use chat_server::types::{
    AddFriend, CreateRoom, GetMessages, LoginInfo, Refusal, Room, RoomCreated, User, UserInfo,
};
use chat_server::user;

fn s(text: &str) -> String {
    text.to_string()
}

struct World {
    users: UserList,
    friends: FriendList,
    rooms: RoomList,
    messages: MessageList,
}

fn world() -> World {
    let mut users = UserList::new();
    let mut friends = FriendList::new();
    for (n, i, p) in [("Alice", "alice", "pw1"), ("Bob", "bob", "pw2"), ("Carol", "carol", "pw3")] {
        assert!(user::create(&mut users, &mut friends, User::new(s(n), s(i), s(p))).is_ok());
    }
    for (f, fid) in [("Bob", "bob"), ("Carol", "carol")] {
        let add = AddFriend::new(LoginInfo::new(s("alice"), s("pw1")), UserInfo::new(s(f), s(fid)));
        assert_eq!(friend::add(&mut friends, &users, add), Ok(()));
    }
    World { users, friends, rooms: RoomList::new(), messages: MessageList::new() }
}

fn open(w: &mut World, id: &str, password: &str, members: &[&str]) -> Result<RoomCreated, Refusal> {
    let req = CreateRoom::new(
        LoginInfo::new(s(id), s(password)),
        members.iter().map(|m| s(m)).collect(),
    );
    room::create(&w.friends, &w.users, &mut w.messages, &mut w.rooms, &req)
}

#[test]
fn opened_room_is_listed_for_its_members() {
    let mut w = world();
    assert_eq!(open(&mut w, "alice", "pw1", &["bob"]), Ok(RoomCreated::Created));
    let alice = room::get_rooms(&w.users, &w.rooms, &LoginInfo::new(s("alice"), s("pw1"))).unwrap();
    assert_eq!(alice, vec![Room::new(0, vec![s("bob")])]);
    let bob = room::get_rooms(&w.users, &w.rooms, &LoginInfo::new(s("bob"), s("pw2"))).unwrap();
    assert_eq!(bob, vec![Room::new(0, vec![s("alice")])]);
    let carol = room::get_rooms(&w.users, &w.rooms, &LoginInfo::new(s("carol"), s("pw3"))).unwrap();
    assert!(carol.is_empty());
    assert_eq!(w.rooms.as_vec()[0], Room::new(0, vec![s("bob"), s("alice")]));
}

#[test]
fn rooms_get_consecutive_ids() {
    let mut w = world();
    assert_eq!(open(&mut w, "alice", "pw1", &["bob"]), Ok(RoomCreated::Created));
    assert_eq!(open(&mut w, "alice", "pw1", &["carol"]), Ok(RoomCreated::Created));
    let ids: Vec<i32> = w.rooms.as_vec().iter().map(|r| r.id()).collect();
    assert_eq!(ids, vec![0, 1]);
}

#[test]
fn new_room_has_no_messages() {
    let mut w = world();
    assert_eq!(open(&mut w, "alice", "pw1", &["bob"]), Ok(RoomCreated::Created));
    let get = GetMessages::new(0, User::new(s("Alice"), s("alice"), s("pw1")));
    assert_eq!(message::get_message(&w.messages, &w.users, &w.rooms, &get), Ok(vec![]));
}

#[test]
fn room_with_a_stranger_is_still_opened() {
    let mut w = world();
    let add = AddFriend::new(LoginInfo::new(s("bob"), s("pw2")), UserInfo::new(s("Carol"), s("carol")));
    assert_eq!(friend::add(&mut w.friends, &w.users, add), Ok(()));
    assert_eq!(open(&mut w, "bob", "pw2", &["alice"]), Ok(RoomCreated::Created));
    assert_eq!(w.rooms.as_vec()[0], Room::new(0, vec![s("alice"), s("bob")]));
}

#[test]
fn room_with_a_member_listed_twice_is_opened() {
    let mut w = world();
    assert_eq!(open(&mut w, "alice", "pw1", &["bob", "bob"]), Ok(RoomCreated::Created));
    assert_eq!(w.rooms.as_vec()[0], Room::new(0, vec![s("bob"), s("bob"), s("alice")]));
}

#[test]
fn room_with_a_password_nobody_has_is_not_opened() {
    let mut w = world();
    assert_eq!(open(&mut w, "alice", "nobody", &["bob"]), Ok(RoomCreated::PasswordRejected));
    assert!(w.rooms.as_vec().is_empty());
}

#[test]
fn room_with_an_unknown_member_is_refused() {
    let mut w = world();
    // Without friend lists, only the other checks apply.
    let fl = FriendList::new();
    let req = CreateRoom::new(LoginInfo::new(s("bob"), s("pw2")), vec![s("zed")]);
    assert_eq!(
        room::create(&fl, &w.users, &mut w.messages, &mut w.rooms, &req),
        Err(Refusal::UnknownMembers)
    );
}

#[test]
fn second_room_with_the_same_members_is_refused() {
    let mut w = world();
    assert_eq!(open(&mut w, "alice", "pw1", &["bob", "carol"]), Ok(RoomCreated::Created));
    assert_eq!(open(&mut w, "alice", "pw1", &["carol"]), Err(Refusal::RoomExists));
    assert_eq!(w.rooms.as_vec().len(), 1);
}

#[test]
fn rooms_of_unknown_account_are_refused() {
    let w = world();
    assert_eq!(
        room::get_rooms(&w.users, &w.rooms, &LoginInfo::new(s("zed"), s("x"))),
        Err(Refusal::UserIdNotFound(s("zed")))
    );
}

#[test]
fn precheck_passes_a_good_request() {
    let w = world();
    let req = CreateRoom::new(LoginInfo::new(s("alice"), s("pw1")), vec![s("bob"), s("carol")]);
    assert_eq!(room::precheck(&w.friends, &w.users, &req), Ok(true));
}

#[test]
fn rooms_with_member_keeps_order_and_drops_the_member() {
    let rooms = vec![
        Room::new(0, vec![s("a"), s("b")]),
        Room::new(1, vec![s("c")]),
        Room::new(2, vec![s("b"), s("a"), s("d")]),
    ];
    let shown = room::rooms_with_member(&rooms, &s("a"));
    assert_eq!(shown, vec![Room::new(0, vec![s("b")]), Room::new(2, vec![s("b"), s("d")])]);
}
