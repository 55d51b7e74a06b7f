use vstd::prelude::*;
use crate::types::{Message, Room, RoomId, User, UserId, UserInfo};
use std::collections::HashMap;

verus! {

broadcast use vstd::std_specs::hash::group_hash_axioms;

// ---------------------------------------------------------------- accounts

/// `i` is the first position in `users` of an account with id `id`.
pub open spec fn first_user_at(users: Seq<User>, id: Seq<char>, i: int) -> bool {
    &&& 0 <= i < users.len()
    &&& users[i].id@ == id
    &&& forall|j: int| 0 <= j < i ==> #[trigger] users[j].id@ != id
}

/// Some account in `users` has the id `id`.
pub open spec fn has_user(users: Seq<User>, id: Seq<char>) -> bool {
    exists|i: int| 0 <= i < users.len() && #[trigger] users[i].id@ == id
}

/// The first account in `users` with the id `id`, if any.
pub open spec fn find_user(users: Seq<User>, id: Seq<char>) -> Option<User> {
    if exists|i: int| first_user_at(users, id, i) {
        Some(users[choose|i: int| first_user_at(users, id, i)])
    } else {
        None
    }
}

/// An account found at its first position is the one `find_user` gives.
pub proof fn lemma_find_user_at(users: Seq<User>, id: Seq<char>, i: int)
    requires
        first_user_at(users, id, i),
    ensures
        find_user(users, id) == Some(users[i]),
{
    let k = choose|k: int| first_user_at(users, id, k);
    assert(first_user_at(users, id, k));
    if k < i {
        assert(users[k].id@ != id);
    }
    if i < k {
        assert(users[i].id@ != id);
    }
}

/// Without an account of that id, `find_user` finds nothing.
pub proof fn lemma_find_user_none(users: Seq<User>, id: Seq<char>)
    requires
        !has_user(users, id),
    ensures
        find_user(users, id) == None::<User>,
{
    if exists|i: int| first_user_at(users, id, i) {
        let k = choose|k: int| first_user_at(users, id, k);
        assert(users[k].id@ == id);
    }
}

/// An id some account has is found.
pub proof fn lemma_has_user_found(users: Seq<User>, id: Seq<char>)
    requires
        has_user(users, id),
    ensures
        exists|i: int| first_user_at(users, id, i),
        find_user(users, id) is Some,
    decreases users.len(),
{
    let init = users.drop_last();
    let n = users.len() - 1;
    if has_user(init, id) {
        lemma_has_user_found(init, id);
        let i = choose|i: int| first_user_at(init, id, i);
        assert(first_user_at(users, id, i)) by {
            assert forall|j: int| 0 <= j < i implies #[trigger] users[j].id@ != id by {
                assert(init[j] == users[j]);
            }
        }
    } else {
        let w = choose|w: int| 0 <= w < users.len() && #[trigger] users[w].id@ == id;
        if w < n {
            assert(init[w] == users[w]);
        }
        assert(first_user_at(users, id, n)) by {
            assert forall|j: int| 0 <= j < n implies #[trigger] users[j].id@ != id by {
                assert(init[j] == users[j]);
            }
        }
    }
}

/// The registered accounts, in the order they signed up.
pub struct UserList {
    users: Vec<User>,
}

impl View for UserList {
    type V = Seq<User>;

    closed spec fn view(&self) -> Seq<User> {
        self.users@
    }
}

impl UserList {
    /// No accounts.
    pub fn new() -> (r: UserList)
        ensures
            r@ == Seq::<User>::empty(),
    {
        UserList { users: Vec::new() }
    }

    /// The accounts as a vector, in order.
    pub fn as_vec(&self) -> (r: &Vec<User>)
        ensures
            r@ == self@,
    {
        &self.users
    }

    /// Whether an account with id `id` exists.
    pub fn exist(&self, id: &String) -> (r: bool)
        ensures
            r == has_user(self@, id@),
    {
        match self.position(id) {
            Some(_) => true,
            None => false,
        }
    }

    /// The first account with id `id`.
    pub fn find(&self, id: &String) -> (r: Option<&User>)
        ensures
            match r {
                Some(u) => find_user(self@, id@) == Some(*u),
                None => find_user(self@, id@) == None::<User> && !has_user(self@, id@),
            },
    {
        match self.position(id) {
            Some(i) => {
                proof {
                    lemma_find_user_at(self@, id@, i as int);
                }
                Some(&self.users[i])
            },
            None => {
                proof {
                    lemma_find_user_none(self@, id@);
                }
                None
            },
        }
    }

    fn position(&self, id: &String) -> (r: Option<usize>)
        ensures
            match r {
                Some(i) => first_user_at(self@, id@, i as int),
                None => !has_user(self@, id@),
            },
    {
        let mut i: usize = 0;
        while i < self.users.len()
            invariant
                i <= self.users@.len(),
                forall|j: int| 0 <= j < i ==> #[trigger] self.users@[j].id@ != id@,
            decreases self.users@.len() - i,
        {
            if self.users[i].id == *id {
                return Some(i);
            }
            i = i + 1;
        }
        None
    }

    /// Appends an account.
    pub fn push(&mut self, user: User)
        ensures
            final(self)@ == old(self)@.push(user),
    {
        self.users.push(user);
    }
}

// ------------------------------------------------------------------- rooms

/// Every room's id is its position.
pub open spec fn rooms_wf(rooms: Seq<Room>) -> bool {
    forall|i: int| 0 <= i < rooms.len() ==> #[trigger] rooms[i].id == i
}

/// The room whose id is `id`, if any.
pub open spec fn find_room(rooms: Seq<Room>, id: RoomId) -> Option<Room> {
    if 0 <= id < rooms.len() {
        Some(rooms[id as int])
    } else {
        None
    }
}

/// The rooms; each room's id is its position in the list.
pub struct RoomList {
    rooms: Vec<Room>,
}

impl View for RoomList {
    type V = Seq<Room>;

    closed spec fn view(&self) -> Seq<Room> {
        self.rooms@
    }
}

impl RoomList {
    /// No rooms.
    pub fn new() -> (r: RoomList)
        ensures
            r@ == Seq::<Room>::empty(),
    {
        RoomList { rooms: Vec::new() }
    }

    /// The rooms as a vector, in order.
    pub fn as_vec(&self) -> (r: &Vec<Room>)
        ensures
            r@ == self@,
    {
        &self.rooms
    }

    /// The room with id `id`.
    pub fn find(&self, id: &RoomId) -> (r: Option<&Room>)
        requires
            rooms_wf(self@),
        ensures
            match r {
                Some(room) => find_room(self@, *id) == Some(*room),
                None => find_room(self@, *id) == None::<Room>,
            },
    {
        let id = *id;
        if id < 0 {
            return None;
        }
        let len = self.rooms.len();
        if (id as usize) < len {
            Some(&self.rooms[id as usize])
        } else {
            None
        }
    }

    /// The id the next room gets: the number of rooms.
    pub fn new_id(&self) -> (r: RoomId)
        requires
            self@.len() <= i32::MAX,
        ensures
            r == self@.len(),
    {
        self.rooms.len() as RoomId
    }

    /// Appends a room whose id is its position.
    pub fn push(&mut self, room: Room)
        requires
            rooms_wf(old(self)@),
            room.id == old(self)@.len(),
        ensures
            rooms_wf(final(self)@),
            final(self)@ == old(self)@.push(room),
    {
        self.rooms.push(room);
    }
}

// ----------------------------------------------------------------- friends

struct FriendEntry {
    owner: UserId,
    friends: Vec<UserInfo>,
}

spec fn owners_unique(s: Seq<FriendEntry>) -> bool {
    forall|i: int, j: int|
        0 <= i < s.len() && 0 <= j < s.len() && i != j ==> #[trigger] s[i].owner@
            != #[trigger] s[j].owner@
}

spec fn has_owner(s: Seq<FriendEntry>, k: Seq<char>) -> bool {
    exists|i: int| 0 <= i < s.len() && #[trigger] s[i].owner@ == k
}

spec fn entry_map(s: Seq<FriendEntry>) -> Map<Seq<char>, Seq<UserInfo>> {
    Map::new(
        |k: Seq<char>| has_owner(s, k),
        |k: Seq<char>| s[choose|i: int| 0 <= i < s.len() && #[trigger] s[i].owner@ == k].friends@,
    )
}

proof fn lemma_entry_at(s: Seq<FriendEntry>, i: int)
    requires
        owners_unique(s),
        0 <= i < s.len(),
    ensures
        entry_map(s).contains_key(s[i].owner@),
        entry_map(s)[s[i].owner@] == s[i].friends@,
{
    let k = s[i].owner@;
    assert(has_owner(s, k));
    let c = choose|c: int| 0 <= c < s.len() && #[trigger] s[c].owner@ == k;
    if c != i {
        assert(s[c].owner@ != s[i].owner@);
    }
}

proof fn lemma_entry_update(s: Seq<FriendEntry>, i: int, e: FriendEntry)
    requires
        owners_unique(s),
        0 <= i < s.len(),
        e.owner@ == s[i].owner@,
    ensures
        owners_unique(s.update(i, e)),
        entry_map(s.update(i, e)) =~= entry_map(s).insert(e.owner@, e.friends@),
{
    let t = s.update(i, e);
    assert(owners_unique(t)) by {
        assert forall|a: int, b: int|
            0 <= a < t.len() && 0 <= b < t.len() && a != b implies #[trigger] t[a].owner@
            != #[trigger] t[b].owner@ by {
            assert(s[a].owner@ != s[b].owner@);
        }
    }
    assert forall|k: Seq<char>| has_owner(t, k) <==> has_owner(s, k) || k == e.owner@ by {
        if has_owner(s, k) {
            let j = choose|j: int| 0 <= j < s.len() && #[trigger] s[j].owner@ == k;
            assert(t[j].owner@ == k);
        }
        if has_owner(t, k) {
            let j = choose|j: int| 0 <= j < t.len() && #[trigger] t[j].owner@ == k;
            assert(s[j].owner@ == k);
        }
        if k == e.owner@ {
            assert(t[i].owner@ == k);
        }
    }
    assert forall|k: Seq<char>| #[trigger]
        entry_map(t).contains_key(k) implies entry_map(t)[k] == entry_map(s).insert(
        e.owner@,
        e.friends@,
    )[k] by {
        let j = choose|j: int| 0 <= j < t.len() && #[trigger] t[j].owner@ == k;
        lemma_entry_at(t, j);
        if j != i {
            lemma_entry_at(s, j);
        }
    }
}

proof fn lemma_entry_push(s: Seq<FriendEntry>, e: FriendEntry)
    requires
        owners_unique(s),
        !has_owner(s, e.owner@),
    ensures
        owners_unique(s.push(e)),
        entry_map(s.push(e)) =~= entry_map(s).insert(e.owner@, e.friends@),
{
    let t = s.push(e);
    let n = s.len() as int;
    assert(owners_unique(t)) by {
        assert forall|a: int, b: int|
            0 <= a < t.len() && 0 <= b < t.len() && a != b implies #[trigger] t[a].owner@
            != #[trigger] t[b].owner@ by {
            if a == n {
                assert(s[b].owner@ != e.owner@);
            } else if b == n {
                assert(s[a].owner@ != e.owner@);
            } else {
                assert(s[a].owner@ != s[b].owner@);
            }
        }
    }
    assert forall|k: Seq<char>| has_owner(t, k) <==> has_owner(s, k) || k == e.owner@ by {
        if has_owner(s, k) {
            let j = choose|j: int| 0 <= j < s.len() && #[trigger] s[j].owner@ == k;
            assert(t[j].owner@ == k);
        }
        if has_owner(t, k) {
            let j = choose|j: int| 0 <= j < t.len() && #[trigger] t[j].owner@ == k;
            if j < n {
                assert(s[j].owner@ == k);
            }
        }
        if k == e.owner@ {
            assert(t[n].owner@ == k);
        }
    }
    assert forall|k: Seq<char>| #[trigger]
        entry_map(t).contains_key(k) implies entry_map(t)[k] == entry_map(s).insert(
        e.owner@,
        e.friends@,
    )[k] by {
        let j = choose|j: int| 0 <= j < t.len() && #[trigger] t[j].owner@ == k;
        lemma_entry_at(t, j);
        if j != n {
            lemma_entry_at(s, j);
        }
    }
}

/// Each account's friend list, keyed by the account's id.
pub struct FriendList {
    entries: Vec<FriendEntry>,
}

impl View for FriendList {
    type V = Map<Seq<char>, Seq<UserInfo>>;

    closed spec fn view(&self) -> Map<Seq<char>, Seq<UserInfo>> {
        entry_map(self.entries@)
    }
}

impl FriendList {
    /// No account holds a friend list twice.
    pub closed spec fn wf(&self) -> bool {
        owners_unique(self.entries@)
    }

    /// No friend lists.
    pub fn new() -> (r: FriendList)
        ensures
            r.wf(),
            r@ == Map::<Seq<char>, Seq<UserInfo>>::empty(),
    {
        let r = FriendList { entries: Vec::new() };
        assert(r@ =~= Map::<Seq<char>, Seq<UserInfo>>::empty());
        r
    }

    fn position(&self, owner: &String) -> (r: Option<usize>)
        ensures
            match r {
                Some(i) => i < self.entries@.len() && self.entries@[i as int].owner@ == owner@,
                None => !has_owner(self.entries@, owner@),
            },
    {
        let mut i: usize = 0;
        while i < self.entries.len()
            invariant
                i <= self.entries@.len(),
                forall|j: int| 0 <= j < i ==> #[trigger] self.entries@[j].owner@ != owner@,
            decreases self.entries@.len() - i,
        {
            if self.entries[i].owner == *owner {
                return Some(i);
            }
            i = i + 1;
        }
        None
    }

    /// The friend list of the account `owner`.
    pub fn get(&self, owner: &String) -> (r: Option<&Vec<UserInfo>>)
        requires
            self.wf(),
        ensures
            match r {
                Some(v) => self@.contains_key(owner@) && self@[owner@] == v@,
                None => !self@.contains_key(owner@),
            },
    {
        match self.position(owner) {
            Some(i) => {
                proof {
                    lemma_entry_at(self.entries@, i as int);
                }
                Some(&self.entries[i].friends)
            },
            None => None,
        }
    }

    /// Appends `friend` to the friend list of `owner`, which must exist.
    pub fn push_friend(&mut self, owner: &String, friend: UserInfo)
        requires
            old(self).wf(),
            old(self)@.contains_key(owner@),
        ensures
            final(self).wf(),
            final(self)@ == old(self)@.insert(owner@, old(self)@[owner@].push(friend)),
    {
        match self.position(owner) {
            Some(i) => {
                proof {
                    lemma_entry_at(self.entries@, i as int);
                }
                let mut friends = self.entries[i].friends.clone();
                assert(friends@ =~= self.entries@[i as int].friends@);
                friends.push(friend);
                let e = FriendEntry { owner: self.entries[i].owner.clone(), friends };
                proof {
                    lemma_entry_update(self.entries@, i as int, e);
                }
                self.entries.set(i, e);
            },
            None => {},
        }
    }

    /// Sets the friend list of `owner` to `friends`, replacing any it had.
    pub fn insert(&mut self, owner: String, friends: Vec<UserInfo>)
        requires
            old(self).wf(),
        ensures
            final(self).wf(),
            final(self)@ == old(self)@.insert(owner@, friends@),
    {
        let e = FriendEntry { owner, friends };
        match self.position(&e.owner) {
            Some(i) => {
                proof {
                    lemma_entry_update(self.entries@, i as int, e);
                }
                self.entries.set(i, e);
            },
            None => {
                proof {
                    lemma_entry_push(self.entries@, e);
                }
                self.entries.push(e);
            },
        }
    }
}

// ---------------------------------------------------------------- messages

/// The messages of each room, keyed by the room's id.
pub struct MessageList {
    rooms: HashMap<RoomId, Vec<Message>>,
}

impl View for MessageList {
    type V = Map<RoomId, Seq<Message>>;

    closed spec fn view(&self) -> Map<RoomId, Seq<Message>> {
        self.rooms@.map_values(|v: Vec<Message>| v@)
    }
}

impl MessageList {
    /// No message lists.
    pub fn new() -> (r: MessageList)
        ensures
            r@ == Map::<RoomId, Seq<Message>>::empty(),
    {
        let r = MessageList { rooms: HashMap::new() };
        assert(r@ =~= Map::<RoomId, Seq<Message>>::empty());
        r
    }

    /// The messages of room `room`.
    pub fn get(&self, room: &RoomId) -> (r: Option<&Vec<Message>>)
        ensures
            match r {
                Some(v) => self@.contains_key(*room) && self@[*room] == v@,
                None => !self@.contains_key(*room),
            },
    {
        self.rooms.get(room)
    }

    /// Appends `message` to the messages of `room`, which must have a list.
    pub fn push_message(&mut self, room: RoomId, message: Message)
        requires
            old(self)@.contains_key(room),
        ensures
            final(self)@ == old(self)@.insert(room, old(self)@[room].push(message)),
    {
        match self.rooms.remove(&room) {
            Some(v) => {
                let mut v = v;
                v.push(message);
                self.rooms.insert(room, v);
                assert(self@ =~= old(self)@.insert(room, old(self)@[room].push(message)));
            },
            None => {},
        }
    }

    /// Sets the messages of `room` to `messages`, replacing any it had.
    pub fn insert(&mut self, room: RoomId, messages: Vec<Message>)
        ensures
            final(self)@ == old(self)@.insert(room, messages@),
    {
        self.rooms.insert(room, messages);
        assert(self@ =~= old(self)@.insert(room, messages@));
    }
}

} // verus!
