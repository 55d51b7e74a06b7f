use chat_server::friend;
use chat_server::lists::{FriendList, UserList};
use chat_server::types::{AddFriend, LoginInfo, Refusal, User, UserInfo};
use chat_server::user;

fn s(text: &str) -> String {
    text.to_string()
}

fn setup() -> (UserList, FriendList) {
    let mut users = UserList::new();
    let mut friends = FriendList::new();
    for (n, i, p) in [("Alice", "alice", "pw1"), ("Bob", "bob", "pw2"), ("Carol", "carol", "pw3")] {
        assert!(user::create(&mut users, &mut friends, User::new(s(n), s(i), s(p))).is_ok());
    }
    (users, friends)
}

fn request(id: &str, password: &str, friend_name: &str, friend_id: &str) -> AddFriend {
    AddFriend::new(LoginInfo::new(s(id), s(password)), UserInfo::new(s(friend_name), s(friend_id)))
}

#[test]
fn added_friend_is_listed_after_the_others() {
    let (users, mut friends) = setup();
    assert_eq!(friend::add(&mut friends, &users, request("alice", "pw1", "Bob", "bob")), Ok(()));
    assert_eq!(friend::add(&mut friends, &users, request("alice", "pw1", "Carol", "carol")), Ok(()));
    let list = friend::get(&friends, &users, &UserInfo::new(s("Alice"), s("alice"))).unwrap();
    assert_eq!(list, vec![UserInfo::new(s("Bob"), s("bob")), UserInfo::new(s("Carol"), s("carol"))]);
    let bob = friend::get(&friends, &users, &UserInfo::new(s("Bob"), s("bob"))).unwrap();
    assert!(bob.is_empty());
}

#[test]
fn adding_the_same_friend_twice_is_refused() {
    let (users, mut friends) = setup();
    assert_eq!(friend::add(&mut friends, &users, request("alice", "pw1", "Bob", "bob")), Ok(()));
    assert_eq!(
        friend::add(&mut friends, &users, request("alice", "pw1", "Bobby", "bob")),
        Err(Refusal::FriendAlreadyExists)
    );
    let list = friend::get(&friends, &users, &UserInfo::new(s("Alice"), s("alice"))).unwrap();
    assert_eq!(list.len(), 1);
}

#[test]
fn befriending_oneself_is_refused() {
    let (users, mut friends) = setup();
    assert_eq!(
        friend::add(&mut friends, &users, request("alice", "pw1", "Alice", "alice")),
        Err(Refusal::SelfFriend)
    );
}

#[test]
fn adding_with_wrong_password_is_refused() {
    let (users, mut friends) = setup();
    assert_eq!(
        friend::add(&mut friends, &users, request("alice", "bad", "Bob", "bob")),
        Err(Refusal::NotMatchPassword)
    );
    let list = friend::get(&friends, &users, &UserInfo::new(s("Alice"), s("alice"))).unwrap();
    assert!(list.is_empty());
}

#[test]
fn adding_for_unknown_account_is_refused() {
    let (users, mut friends) = setup();
    assert_eq!(
        friend::add(&mut friends, &users, request("dave", "pw", "Bob", "bob")),
        Err(Refusal::UserNotFound)
    );
}

#[test]
fn adding_without_a_friend_list_makes_one_but_answers_an_error() {
    let mut users = UserList::new();
    users.push(User::new(s("Alice"), s("alice"), s("pw1")));
    let mut friends = FriendList::new();
    assert_eq!(
        friend::add(&mut friends, &users, request("alice", "pw1", "Bob", "bob")),
        Err(Refusal::FriendListCreated)
    );
    let list = friend::get(&friends, &users, &UserInfo::new(s("Alice"), s("alice"))).unwrap();
    assert_eq!(list, vec![UserInfo::new(s("Bob"), s("bob"))]);
}

#[test]
fn friend_list_of_unknown_account_is_refused() {
    let (users, friends) = setup();
    assert_eq!(
        friend::get(&friends, &users, &UserInfo::new(s("Dave"), s("dave"))),
        Err(Refusal::UserNotFound)
    );
}

#[test]
fn missing_friend_list_is_refused() {
    let mut users = UserList::new();
    users.push(User::new(s("Alice"), s("alice"), s("pw1")));
    let friends = FriendList::new();
    assert_eq!(
        friend::get(&friends, &users, &UserInfo::new(s("Alice"), s("alice"))),
        Err(Refusal::FriendListNotFound)
    );
}
