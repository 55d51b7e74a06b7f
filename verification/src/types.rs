use vstd::prelude::*;

verus! {

/// Identifier of a chat room.
pub type RoomId = i32;

/// Identifier of a user account.
pub type UserId = String;

/// A registered account, as sent when signing up.
#[derive(Debug, PartialEq, Eq)]
pub struct User {
    pub name: String,
    pub id: UserId,
    pub password: String,
}

impl Clone for User {
    fn clone(&self) -> (r: Self)
        ensures
            r == *self,
    {
        User { name: self.name.clone(), id: self.id.clone(), password: self.password.clone() }
    }
}

impl User {
    pub fn new(name: String, id: UserId, password: String) -> (r: User)
        ensures
            r.name == name,
            r.id == id,
            r.password == password,
    {
        User { name, id, password }
    }

    pub fn name(&self) -> (r: &String)
        ensures
            *r == self.name,
    {
        &self.name
    }

    pub fn id(&self) -> (r: &UserId)
        ensures
            *r == self.id,
    {
        &self.id
    }

    pub fn password(&self) -> (r: &String)
        ensures
            *r == self.password,
    {
        &self.password
    }
}

/// The public part of an account: its name and id.
#[derive(Debug, PartialEq, Eq)]
pub struct UserInfo {
    pub name: String,
    pub id: UserId,
}

impl Clone for UserInfo {
    fn clone(&self) -> (r: Self)
        ensures
            r == *self,
    {
        UserInfo { name: self.name.clone(), id: self.id.clone() }
    }
}

/// The public part of `user`.
pub open spec fn info_of(user: User) -> UserInfo {
    UserInfo { name: user.name, id: user.id }
}

impl UserInfo {
    pub fn new(name: String, id: String) -> (r: UserInfo)
        ensures
            r.name == name,
            r.id == id,
    {
        UserInfo { name, id }
    }

    pub fn id(&self) -> (r: &UserId)
        ensures
            *r == self.id,
    {
        &self.id
    }

    pub fn name(&self) -> (r: &String)
        ensures
            *r == self.name,
    {
        &self.name
    }

    /// The public part of `user`.
    pub fn of_user(user: &User) -> (r: UserInfo)
        ensures
            r == info_of(*user),
    {
        UserInfo { name: user.name.clone(), id: user.id.clone() }
    }
}

/// Credentials: an account id and a password.
#[derive(Debug, PartialEq, Eq)]
pub struct LoginInfo {
    pub id: UserId,
    pub password: String,
}

impl Clone for LoginInfo {
    fn clone(&self) -> (r: Self)
        ensures
            r == *self,
    {
        LoginInfo { id: self.id.clone(), password: self.password.clone() }
    }
}

/// The credentials of `user`.
pub open spec fn login_of(user: User) -> LoginInfo {
    LoginInfo { id: user.id, password: user.password }
}

impl LoginInfo {
    pub fn new(id: String, password: String) -> (r: LoginInfo)
        ensures
            r.id == id,
            r.password == password,
    {
        LoginInfo { id, password }
    }

    pub fn id(&self) -> (r: &String)
        ensures
            *r == self.id,
    {
        &self.id
    }

    pub fn password(&self) -> (r: &String)
        ensures
            *r == self.password,
    {
        &self.password
    }
}

impl<'a> From<&'a User> for LoginInfo {
    /// The credentials of `user`.
    fn from(user: &'a User) -> (r: LoginInfo) {
        LoginInfo::new(user.id.clone(), user.password.clone())
    }
}

impl<'a> vstd::std_specs::convert::FromSpecImpl<&'a User> for LoginInfo {
    open spec fn obeys_from_spec() -> bool {
        true
    }

    open spec fn from_spec(user: &'a User) -> LoginInfo {
        login_of(*user)
    }
}

/// What the account page shows: the account's name and id and its friends.
#[derive(Debug, PartialEq, Eq)]
pub struct AccountInfo {
    pub name: String,
    pub id: UserId,
    pub friends: Vec<UserInfo>,
}

impl AccountInfo {
    pub fn new(user: UserInfo, friends: Vec<UserInfo>) -> (r: AccountInfo)
        ensures
            r.name == user.name,
            r.id == user.id,
            r.friends@ == friends@,
    {
        AccountInfo { friends, name: user.name.clone(), id: user.id.clone() }
    }
}

/// A request to add `friend` to the friend list of the account `user` logs in to.
#[derive(Debug, PartialEq, Eq)]
pub struct AddFriend {
    pub user: LoginInfo,
    pub friend: UserInfo,
}

impl AddFriend {
    pub fn new(user: LoginInfo, friend: UserInfo) -> (r: AddFriend)
        ensures
            r.user == user,
            r.friend == friend,
    {
        AddFriend { user, friend }
    }

    pub fn user(&self) -> (r: &LoginInfo)
        ensures
            *r == self.user,
    {
        &self.user
    }

    pub fn friend(&self) -> (r: &UserInfo)
        ensures
            *r == self.friend,
    {
        &self.friend
    }
}

/// A stored chat message: its text and the credentials it was sent with.
#[derive(Debug, PartialEq, Eq)]
pub struct Message {
    pub text: String,
    pub user: LoginInfo,
}

impl Clone for Message {
    fn clone(&self) -> (r: Self)
        ensures
            r == *self,
    {
        Message { text: self.text.clone(), user: self.user.clone() }
    }
}

/// A request to post `text` in room `room`.
#[derive(Debug, PartialEq, Eq)]
pub struct MessageInfo {
    pub room: RoomId,
    pub text: String,
    pub user: LoginInfo,
}

/// The message that `info` stores.
pub open spec fn message_of(info: MessageInfo) -> Message {
    Message { text: info.text, user: info.user }
}

impl MessageInfo {
    pub fn new(room: RoomId, text: String, user: LoginInfo) -> (r: MessageInfo)
        ensures
            r.room == room,
            r.text == text,
            r.user == user,
    {
        MessageInfo { room, text, user }
    }

    pub fn room_id(&self) -> (r: RoomId)
        ensures
            r == self.room,
    {
        self.room
    }

    pub fn user_id(&self) -> (r: &UserId)
        ensures
            *r == self.user.id,
    {
        self.user.id()
    }

    pub fn text(&self) -> (r: &String)
        ensures
            *r == self.text,
    {
        &self.text
    }
}

impl From<MessageInfo> for Message {
    /// The message that `value` stores: its text and its sender's credentials.
    fn from(value: MessageInfo) -> (r: Message) {
        Message {
            text: value.text().clone(),
            user: LoginInfo { id: value.user.id().clone(), password: value.user.password().clone() },
        }
    }
}

impl vstd::std_specs::convert::FromSpecImpl<MessageInfo> for Message {
    open spec fn obeys_from_spec() -> bool {
        true
    }

    open spec fn from_spec(value: MessageInfo) -> Message {
        message_of(value)
    }
}

/// A request for the messages of room `room_id`, made by `user`.
#[derive(Debug, PartialEq, Eq)]
pub struct GetMessages {
    pub room_id: RoomId,
    pub user: User,
}

impl GetMessages {
    pub fn new(room_id: RoomId, user: User) -> (r: GetMessages)
        ensures
            r.room_id == room_id,
            r.user == user,
    {
        GetMessages { room_id, user }
    }

    pub fn room_id(&self) -> (r: RoomId)
        ensures
            r == self.room_id,
    {
        self.room_id
    }

    pub fn user_name(&self) -> (r: &String)
        ensures
            *r == self.user.name,
    {
        self.user.name()
    }

    pub fn user_id(&self) -> (r: &UserId)
        ensures
            *r == self.user.id,
    {
        self.user.id()
    }

    pub fn user_password(&self) -> (r: &String)
        ensures
            *r == self.user.password,
    {
        self.user.password()
    }
}

/// A chat room and the ids of its members.
#[derive(Debug, PartialEq, Eq)]
pub struct Room {
    pub id: RoomId,
    pub members: Vec<String>,
}

impl Clone for Room {
    fn clone(&self) -> (r: Self)
        ensures
            r.id == self.id,
            r.members@ == self.members@,
    {
        Room { id: self.id, members: self.members.clone() }
    }
}

impl Room {
    pub fn new(id: RoomId, members: Vec<String>) -> (r: Room)
        ensures
            r.id == id,
            r.members@ == members@,
    {
        Room { id, members }
    }

    pub fn id(&self) -> (r: RoomId)
        ensures
            r == self.id,
    {
        self.id
    }

    pub fn members(&self) -> (r: &Vec<String>)
        ensures
            r@ == self.members@,
    {
        &self.members
    }
}

/// A request by `user` to open a room with `members`.
#[derive(Debug, PartialEq, Eq)]
pub struct CreateRoom {
    pub user: LoginInfo,
    pub members: Vec<UserId>,
}

impl CreateRoom {
    pub fn new(user: LoginInfo, members: Vec<UserId>) -> (r: CreateRoom)
        ensures
            r.user == user,
            r.members@ == members@,
    {
        CreateRoom { user, members }
    }

    pub fn members(&self) -> (r: &Vec<UserId>)
        ensures
            r@ == self.members@,
    {
        &self.members
    }

    pub fn user(&self) -> (r: &LoginInfo)
        ensures
            *r == self.user,
    {
        &self.user
    }

    pub fn user_id(&self) -> (r: &UserId)
        ensures
            *r == self.user.id,
    {
        self.user.id()
    }

    pub fn user_password(&self) -> (r: &String)
        ensures
            *r == self.user.password,
    {
        self.user.password()
    }
}

/// One search hit: an account and whether it is already a friend of the
/// account that searched.
#[derive(Debug, PartialEq, Eq)]
pub struct SearchUserInfo {
    pub name: String,
    pub id: UserId,
    pub status: bool,
}

impl SearchUserInfo {
    pub fn new(user: &UserInfo, status: bool) -> (r: SearchUserInfo)
        ensures
            r.name == user.name,
            r.id == user.id,
            r.status == status,
    {
        SearchUserInfo { name: user.name().clone(), id: user.id().clone(), status }
    }
}

/// The account on whose behalf a search is made.
#[derive(Debug, PartialEq, Eq)]
pub struct SearchUserId {
    pub id: UserId,
}

/// The errors of the database-backed handlers.
#[derive(Debug, PartialEq, Eq, Structural)]
pub enum Error {
    /// An unspecified internal error.
    InternalError,
    /// A database error.
    DatabaseError,
    UserAlreadyExists,
    NotFriends,
    NotMatchPassword,
}

impl Error {
    /// The HTTP status code with which the error is answered.
    pub fn status_code(&self) -> (code: u16)
        ensures
            code == (match *self {
                Error::InternalError | Error::DatabaseError => 500u16,
                _ => 400u16,
            }),
    {
        match self {
            Error::InternalError => 500,
            Error::DatabaseError => 500,
            Error::NotFriends => 400,
            Error::UserAlreadyExists => 400,
            Error::NotMatchPassword => 400,
        }
    }
}

/// Why an in-memory handler turned a request down. Each variant stands for
/// one answer text; the payload is the value the text quotes.
#[derive(Debug, PartialEq, Eq)]
pub enum Refusal {
    /// "login user == friend": an account cannot befriend itself.
    SelfFriend,
    /// "not match password": the password does not match the account's.
    NotMatchPassword,
    /// "not found user": no account has the id.
    UserNotFound,
    /// "the friend already exists": the friend is already on the list.
    FriendAlreadyExists,
    /// "not found user and friend list": the account had no friend list;
    /// one holding the friend was made.
    FriendListCreated,
    /// "not found friend list": the account has no friend list.
    FriendListNotFound,
    /// "not get message_list room_id: {}": the room has no message list.
    NoMessageList(RoomId),
    /// "not found room id: {}": no room has the id.
    RoomNotFound(RoomId),
    /// "are you room member?: {}": the requester is not a member of the room.
    NotRoomMember(RoomId),
    /// "not found request user: {}": the requester has no account.
    RequestUserNotFound(UserId),
    /// "no match password: {}": the requester's password does not match.
    PasswordMismatch(String),
    /// "not found messages: {}": the room has no message list.
    MessagesNotFound(RoomId),
    /// The friend test on a room request fired (see `room::precheck_reply`).
    NotFriendMember,
    /// Some of the requested members have no account.
    UnknownMembers,
    /// A room that holds every requested member exists already.
    RoomExists,
    /// "not found user id: {}": no account has the id.
    UserIdNotFound(UserId),
    /// "this user already exists": an account with the id exists.
    UserAlreadyExists,
}

/// How a request to open a room that was not refused ended.
#[derive(Debug, PartialEq, Eq)]
pub enum RoomCreated {
    /// The room was opened.
    Created,
    /// No account has the creator's password, so no room was opened.
    PasswordRejected,
}

/// A `Result` holding a vector, with the vector taken by its view.
pub open spec fn viewed<T, E>(r: Result<Vec<T>, E>) -> Result<Seq<T>, E> {
    match r {
        Ok(v) => Ok(v@),
        Err(e) => Err(e),
    }
}

/// The body of every answer: the data, if any, and whether the request succeeded.
#[derive(Debug)]
pub struct Response<T> {
    pub data: Option<T>,
    pub status: bool,
}

impl<T> Response<T> {
    pub fn new(data: Option<T>, status: bool) -> (r: Response<T>)
        ensures
            r.data == data,
            r.status == status,
    {
        Response { data, status }
    }
}

} // verus!
