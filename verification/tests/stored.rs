use chat_server::db;
use chat_server::text::contains_text;
use chat_server::types::{
    Error, LoginInfo, Message, MessageInfo, Response, Room, SearchUserInfo, User, UserInfo,
};

fn s(text: &str) -> String {
    text.to_string()
}

#[test]
fn stored_login_checks_the_password() {
    let user = User::new(s("Alice"), s("alice"), s("pw1"));
    assert_eq!(
        db::login(user.clone(), &LoginInfo::new(s("alice"), s("pw1"))),
        Ok(LoginInfo::new(s("alice"), s("pw1")))
    );
    assert_eq!(db::login(user, &LoginInfo::new(s("alice"), s("no"))), Err(Error::NotMatchPassword));
}

#[test]
fn signup_with_no_insert_id_is_a_duplicate() {
    let user = User::new(s("Alice"), s("alice"), s("pw1"));
    assert_eq!(db::signup_reply(0, &user), Err(Error::UserAlreadyExists));
    assert_eq!(db::signup_reply(42, &user), Ok(LoginInfo::new(s("alice"), s("pw1"))));
}

#[test]
fn empty_friend_list_is_stored_as_an_empty_json_array() {
    assert_eq!(db::empty_friend_list(), "[]");
}

#[test]
fn id_lists_are_stored_as_json_arrays() {
    assert_eq!(db::id_list_text(&vec![s("a"), s("b\"c")]), "[\"a\",\"b\\\"c\"]");
}

#[test]
fn stored_id_lists_are_read_back() {
    assert_eq!(db::stored_ids(&s("[\"a\",\"b\"]")), vec![s("a"), s("b")]);
    assert_eq!(db::stored_ids(&s("[]")), Vec::<String>::new());
    assert_eq!(db::stored_ids(&s("not json")), Vec::<String>::new());
    let ids = vec![s("x"), s("y z")];
    assert_eq!(db::stored_ids(&db::id_list_text(&ids)), ids);
    assert_eq!(db::stored_ids(&db::empty_friend_list()), Vec::<String>::new());
}

#[test]
fn adding_a_stored_friend_appends_its_id() {
    assert_eq!(db::with_friend(vec![s("a")], s("b")), vec![s("a"), s("b")]);
}

#[test]
fn room_members_must_be_friends_except_the_creator() {
    let friends = vec![s("bob"), s("carol")];
    assert_eq!(db::check_room_members(&friends, &vec![s("bob"), s("alice")], &s("alice")), Ok(()));
    assert_eq!(
        db::check_room_members(&friends, &vec![s("bob"), s("dave")], &s("alice")),
        Err(Error::NotFriends)
    );
    assert_eq!(db::check_room_members(&friends, &vec![], &s("alice")), Ok(()));
}

#[test]
fn like_pattern_wraps_in_percent_signs() {
    assert_eq!(db::like_pattern(&s("al")), "%al%");
    assert_eq!(db::like_pattern(&s("")), "%%");
}

#[test]
fn stored_search_marks_friends() {
    let users = vec![UserInfo::new(s("Bob"), s("bob")), UserInfo::new(s("Dave"), s("dave"))];
    let hits = db::search_results(&users, &vec![s("bob")], &s("alice"));
    assert_eq!(
        hits,
        vec![
            SearchUserInfo { name: s("Bob"), id: s("bob"), status: true },
            SearchUserInfo { name: s("Dave"), id: s("dave"), status: false },
        ]
    );
}

#[test]
fn status_codes() {
    assert_eq!(Error::InternalError.status_code(), 500);
    assert_eq!(Error::DatabaseError.status_code(), 500);
    assert_eq!(Error::UserAlreadyExists.status_code(), 400);
    assert_eq!(Error::NotFriends.status_code(), 400);
    assert_eq!(Error::NotMatchPassword.status_code(), 400);
}

#[test]
fn response_holds_data_and_status() {
    let r = Response::new(Some(3), true);
    assert_eq!(r.data, Some(3));
    assert!(r.status);
    let e: Response<bool> = Response::new(None, false);
    assert_eq!(e.data, None);
    assert!(!e.status);
}

#[test]
fn message_keeps_text_and_credentials() {
    let info = MessageInfo::new(4, s("yo"), LoginInfo::new(s("alice"), s("pw")));
    assert_eq!(info.room_id(), 4);
    assert_eq!(info.user_id(), "alice");
    assert_eq!(info.text(), "yo");
    assert_eq!(
        Message::from(info),
        Message { text: s("yo"), user: LoginInfo::new(s("alice"), s("pw")) }
    );
}

#[test]
fn text_search_finds_runs() {
    assert!(contains_text(&s("Malory"), &s("al")));
    assert!(contains_text(&s("abc"), &s("")));
    assert!(contains_text(&s("abc"), &s("abc")));
    assert!(!contains_text(&s("abc"), &s("abcd")));
    assert!(!contains_text(&s("abc"), &s("ac")));
    assert!(contains_text(&s("日本語テキスト"), &s("語テ")));
}

#[test]
fn getters_give_fields() {
    let u = User::new(s("N"), s("I"), s("P"));
    assert_eq!((u.name().as_str(), u.id().as_str(), u.password().as_str()), ("N", "I", "P"));
    let info = UserInfo::of_user(&u);
    assert_eq!((info.name().as_str(), info.id().as_str()), ("N", "I"));
    let login = LoginInfo::from(&u);
    assert_eq!((login.id().as_str(), login.password().as_str()), ("I", "P"));
    let sr = SearchUserInfo::new(&info, true);
    assert_eq!((sr.name.as_str(), sr.id.as_str(), sr.status), ("N", "I", true));
}

#[test]
fn stored_login_after_signup_succeeds() {
    let user = User::new(s("Alice"), s("alice"), s("pw1"));
    let login = db::signup_reply(7, &user).unwrap();
    assert_eq!(db::login(user, &login), Ok(login.clone()));
}

#[test]
fn stored_search_leaves_out_the_searcher() {
    let users = vec![UserInfo::new(s("Alice"), s("alice")), UserInfo::new(s("Bob"), s("bob"))];
    let hits = db::search_results(&users, &vec![], &s("alice"));
    assert_eq!(hits, vec![SearchUserInfo { name: s("Bob"), id: s("bob"), status: false }]);
}

#[test]
fn stored_room_is_listed_for_its_members() {
    let members = vec![s("bob"), s("carol")];
    let rows = vec![
        (0, db::id_list_text(&vec![s("dave")])),
        (1, db::id_list_text(&members)),
        (2, s("not json")),
    ];
    assert_eq!(db::stored_rooms(&rows, &s("bob")), vec![Room::new(1, vec![s("carol")])]);
    assert_eq!(db::stored_rooms(&rows, &s("carol")), vec![Room::new(1, vec![s("bob")])]);
    assert_eq!(db::stored_rooms(&rows, &s("erin")), vec![]);
}
