use chat_server::friend;
use chat_server::lists::{FriendList, UserList};
use chat_server::types::{LoginInfo, Refusal, SearchUserId, User, UserInfo};
use chat_server::user;

fn s(text: &str) -> String {
    text.to_string()
}

fn account(name: &str, id: &str, password: &str) -> User {
    User::new(s(name), s(id), s(password))
}

fn signed_up(accounts: &[User]) -> (UserList, FriendList) {
    let mut users = UserList::new();
    let mut friends = FriendList::new();
    for a in accounts {
        assert!(user::create(&mut users, &mut friends, a.clone()).is_ok());
    }
    (users, friends)
}

#[test]
fn signup_then_login_gives_back_credentials() {
    let (users, _) = signed_up(&[account("Alice", "alice", "pw1")]);
    let r = user::login(&users, &LoginInfo::new(s("alice"), s("pw1")));
    assert_eq!(r, Ok(LoginInfo::new(s("alice"), s("pw1"))));
}

#[test]
fn signup_answers_the_account() {
    let mut users = UserList::new();
    let mut friends = FriendList::new();
    let r = user::create(&mut users, &mut friends, account("Bob", "bob", "x"));
    assert_eq!(r, Ok(account("Bob", "bob", "x")));
    assert_eq!(users.as_vec().len(), 1);
}

#[test]
fn signup_with_taken_id_is_refused_and_changes_nothing() {
    let (mut users, mut friends) = signed_up(&[account("Alice", "alice", "pw1")]);
    let r = user::create(&mut users, &mut friends, account("Other", "alice", "pw2"));
    assert_eq!(r, Err(Refusal::UserAlreadyExists));
    assert_eq!(users.as_vec().len(), 1);
    assert_eq!(users.as_vec()[0].password(), "pw1");
}

#[test]
fn login_with_wrong_password_is_refused() {
    let (users, _) = signed_up(&[account("Alice", "alice", "pw1")]);
    let r = user::login(&users, &LoginInfo::new(s("alice"), s("nope")));
    assert_eq!(r, Err(Refusal::NotMatchPassword));
}

#[test]
fn login_to_unknown_account_is_refused() {
    let (users, _) = signed_up(&[account("Alice", "alice", "pw1")]);
    let r = user::login(&users, &LoginInfo::new(s("carol"), s("pw1")));
    assert_eq!(r, Err(Refusal::UserNotFound));
}

#[test]
fn new_account_has_an_empty_friend_list() {
    let (users, friends) = signed_up(&[account("Alice", "alice", "pw1")]);
    let r = friend::get(&friends, &users, &UserInfo::new(s("Alice"), s("alice")));
    assert_eq!(r, Ok(vec![]));
}

#[test]
fn search_marks_friends_and_skips_the_searcher() {
    let (users, mut friends) = signed_up(&[
        account("Alice", "alice", "pw1"),
        account("Alan", "al", "pw2"),
        account("Bob", "bob", "pw3"),
        account("Malory", "mal", "pw4"),
    ]);
    let add = chat_server::types::AddFriend::new(
        LoginInfo::new(s("alice"), s("pw1")),
        UserInfo::new(s("Alan"), s("al")),
    );
    assert_eq!(friend::add(&mut friends, &users, add), Ok(()));
    let query = UserInfo::new(s("Al"), s("al"));
    let hits = user::search(&query, &users, &friends, &SearchUserId { id: s("alice") });
    assert_eq!(hits.len(), 2);
    assert_eq!((hits[0].name.as_str(), hits[0].id.as_str(), hits[0].status), ("Alan", "al", true));
    assert_eq!((hits[1].name.as_str(), hits[1].id.as_str(), hits[1].status), ("Malory", "mal", false));
}

#[test]
fn search_without_hits_is_empty() {
    let (users, friends) = signed_up(&[account("Alice", "alice", "pw1"), account("Bob", "bob", "pw3")]);
    let query = UserInfo::new(s("zzz"), s("zzz"));
    let hits = user::search(&query, &users, &friends, &SearchUserId { id: s("alice") });
    assert!(hits.is_empty());
}

#[test]
fn account_page_lists_friends() {
    let (users, mut friends) = signed_up(&[account("Alice", "alice", "pw1"), account("Bob", "bob", "pw3")]);
    let add = chat_server::types::AddFriend::new(
        LoginInfo::new(s("alice"), s("pw1")),
        UserInfo::new(s("Bob"), s("bob")),
    );
    assert_eq!(friend::add(&mut friends, &users, add), Ok(()));
    let page = user::info(&s("alice"), &users, &friends).unwrap();
    assert_eq!(page.name, "Alice");
    assert_eq!(page.id, "alice");
    assert_eq!(page.friends, vec![UserInfo::new(s("Bob"), s("bob"))]);
}

#[test]
fn account_page_of_unknown_account_is_refused() {
    let (users, friends) = signed_up(&[account("Alice", "alice", "pw1")]);
    assert_eq!(user::info(&s("bob"), &users, &friends), Err(Refusal::UserNotFound));
}

#[test]
fn account_page_without_friend_list_is_refused() {
    let mut users = UserList::new();
    users.push(account("Alice", "alice", "pw1"));
    let friends = FriendList::new();
    assert_eq!(user::info(&s("alice"), &users, &friends), Err(Refusal::FriendListNotFound));
}
