use crate::chat::error::ChatError;
use crate::chat::message::Pagination;
use crate::chat::room::{Chat, RoomView};
use crate::chat::session::{Session, SessionState, SessionView};
use crate::chat::sink::accepted;
use tokio::sync::mpsc::UnboundedSender;
use vstd::prelude::*;

verus! {

/// The registry as its contracts see it: the rooms in the order in which they were made.
/// A room keeps its position for good, since no room is ever taken out.
pub struct ChatsView {
    pub rooms: Seq<RoomView>,
}

impl ChatsView {
    /// Every room is well formed and no two rooms share a name.
    pub open spec fn wf(self) -> bool {
        &&& forall|at: int| 0 <= at < self.rooms.len() ==> (#[trigger] self.rooms[at]).wf()
        &&& forall|i: int, j: int|
            0 <= i < j < self.rooms.len() ==> self.rooms[i].name != self.rooms[j].name
    }

    /// The room at position `at` is called `name`.
    pub open spec fn holds(self, name: Seq<char>, at: int) -> bool {
        0 <= at < self.rooms.len() && self.rooms[at].name == name
    }

    /// There is a room called `name`.
    pub open spec fn has(self, name: Seq<char>) -> bool {
        exists|at: int| self.holds(name, at)
    }

    /// Where the room called `name` stands.
    pub open spec fn place(self, name: Seq<char>) -> int {
        choose|at: int| self.holds(name, at)
    }

    /// The room called `name`.
    pub open spec fn room(self, name: Seq<char>) -> RoomView {
        self.rooms[self.place(name)]
    }

    /// The registry once a room called `name` has been asked for: as before where there is
    /// one, else with an empty room of that name behind the others.
    pub open spec fn get_or_create(self, name: Seq<char>) -> ChatsView {
        if self.has(name) {
            self
        } else {
            ChatsView { rooms: self.rooms.push(RoomView::empty(name)) }
        }
    }

    /// The registry with `room` in the place `at`.
    pub open spec fn put(self, at: int, room: RoomView) -> ChatsView {
        ChatsView { rooms: self.rooms.update(at, room) }
    }

    /// The registry once `username` has asked to be let into the room called `name` with a
    /// channel that has taken in `stream`: the room is there, and holds the new member at
    /// its end unless the name was held.
    pub open spec fn insert_chat(self, name: Seq<char>, username: Seq<char>, stream: Seq<Seq<char>>) -> ChatsView {
        let opened = self.get_or_create(name);
        let at = opened.place(name);
        if opened.rooms[at].has(username) {
            self
        } else {
            opened.put(at, opened.rooms[at].enter(username, stream))
        }
    }

    /// `username` is held in the room called `name`.
    pub open spec fn taken(self, name: Seq<char>, username: Seq<char>) -> bool {
        self.has(name) && self.room(name).has(username)
    }
}

/// In a well-formed registry a name stands in one place only.
pub proof fn lemma_place_is(chats: ChatsView, name: Seq<char>, at: int)
    requires
        chats.wf(),
        chats.holds(name, at),
    ensures
        chats.has(name),
        chats.place(name) == at,
{
    assert(chats.holds(name, chats.place(name)));
}

/// All the rooms of the process, by name. Rooms are made when first asked for and are
/// never taken out.
pub struct Chats {
    chats: Vec<Chat>,
}

impl View for Chats {
    type V = ChatsView;

    closed spec fn view(&self) -> ChatsView {
        ChatsView { rooms: self.chats@.map_values(|chat: Chat| chat@) }
    }
}

impl Default for Chats {
    fn default() -> (chats: Chats)
        ensures
            chats@.rooms.len() == 0,
            chats@.wf(),
    {
        Chats::new()
    }
}

impl Chats {
    /// A registry without rooms.
    pub fn new() -> (chats: Chats)
        ensures
            chats@.rooms.len() == 0,
            chats@.wf(),
    {
        Chats { chats: Vec::new() }
    }

    /// The number of rooms.
    pub fn len(&self) -> (count: usize)
        ensures
            count == self@.rooms.len(),
    {
        self.chats.len()
    }

    /// Where the room called `room_name` stands, if there is one.
    pub fn find(&self, room_name: &String) -> (found: Option<usize>)
        ensures
            match found {
                Some(at) => self@.holds(room_name@, at as int),
                None => !self@.has(room_name@),
            },
    {
        let mut at: usize = 0;
        while at < self.chats.len()
            invariant
                at <= self.chats.len(),
                forall|i: int| 0 <= i < at ==> !self@.holds(room_name@, i),
            decreases self.chats.len() - at,
        {
            if *self.chats[at].name() == *room_name {
                return Some(at);
            }
            at = at + 1;
        }
        None
    }

    /// Where the room called `room_name` stands, if there is one, looking first at the
    /// position `hint`.
    pub fn locate(&self, hint: usize, room_name: &String) -> (found: Option<usize>)
        ensures
            match found {
                Some(at) => self@.holds(room_name@, at as int),
                None => !self@.has(room_name@),
            },
    {
        if hint < self.chats.len() && *self.chats[hint].name() == *room_name {
            Some(hint)
        } else {
            self.find(room_name)
        }
    }

    /// The room at position `at`, if there is one.
    pub fn chat(&self, at: usize) -> (chat: Option<&Chat>)
        ensures
            match chat {
                Some(room) => at < self@.rooms.len() && room@ == self@.rooms[at as int],
                None => at >= self@.rooms.len(),
            },
    {
        if at < self.chats.len() {
            Some(&self.chats[at])
        } else {
            None
        }
    }

    /// The room at position `at`, to work on. What is done to it is done to the registry's
    /// room.
    pub fn chat_mut(&mut self, at: usize) -> (chat: &mut Chat)
        requires
            at < old(self)@.rooms.len(),
        ensures
            chat@ == old(self)@.rooms[at as int],
            final(self)@.rooms == old(self)@.rooms.update(at as int, final(chat)@),
    {
        &mut self.chats[at]
    }

    /// The position of the room called `room_name`, which is made, empty, where there is
    /// none yet.
    pub fn get_or_create(&mut self, room_name: String) -> (at: usize)
        requires
            old(self)@.wf(),
        ensures
            final(self)@.wf(),
            final(self)@ == old(self)@.get_or_create(room_name@),
            final(self)@.holds(room_name@, at as int),
            at as int == final(self)@.place(room_name@),
    {
        match self.find(&room_name) {
            Some(at) => {
                proof {
                    lemma_place_is(self@, room_name@, at as int);
                }
                at
            },
            None => {
                let ghost before = self@;
                let at = self.chats.len();
                self.chats.push(Chat::new(room_name));
                proof {
                    assert(self@.rooms =~= before.rooms.push(RoomView::empty(room_name@)));
                    assert forall|i: int, j: int| 0 <= i < j < self@.rooms.len() implies self@.rooms[i].name
                        != self@.rooms[j].name by {
                        if j == before.rooms.len() {
                            assert(!before.holds(room_name@, i));
                        }
                    }
                    lemma_place_is(self@, room_name@, at as int);
                }
                at
            },
        }
    }

    /// Lets a connection into the room called `chat_name` under `username`, making the room
    /// where there is none. Where the name is held in that room, nothing changes and the
    /// error comes back with the channel, unused. The check and the entry are one step.
    pub fn insert_chat(&mut self, chat_name: String, username: String, tx: UnboundedSender<String>) -> (entered:
        Result<usize, (ChatError, UnboundedSender<String>)>)
        requires
            old(self)@.wf(),
        ensures
            final(self)@.wf(),
            final(self)@ == old(self)@.insert_chat(chat_name@, username@, accepted(tx)),
            match entered {
                Ok(at) => !old(self)@.taken(chat_name@, username@) && final(self)@.holds(
                    chat_name@,
                    at as int,
                ) && old(self)@.get_or_create(chat_name@).holds(chat_name@, at as int) && at as int == old(
                    self,
                )@.get_or_create(chat_name@).place(chat_name@),
                Err((error, back)) => old(self)@.taken(chat_name@, username@) && back == tx && (error
                    matches ChatError::UsernameTaken(room) && room@ == chat_name@),
            },
    {
        let ghost before = self@;
        let at = self.get_or_create(chat_name);
        let ghost opened = self@;
        proof {
            if before.has(chat_name@) {
                assert(opened == before);
            } else {
                if at < before.rooms.len() {
                    assert(before.holds(chat_name@, at as int));
                }
                assert(opened.rooms[at as int] == RoomView::empty(chat_name@));
                assert(!opened.rooms[at as int].has(username@));
            }
        }
        match self.chats[at].connect_user(username, tx) {
            Ok(_) => {
                proof {
                    assert(self@.rooms =~= opened.put(
                        at as int,
                        opened.rooms[at as int].enter(username@, accepted(tx)),
                    ).rooms);
                    assert forall|i: int, j: int| 0 <= i < j < self@.rooms.len() implies self@.rooms[i].name
                        != self@.rooms[j].name by {
                        assert(self@.rooms[i].name == opened.rooms[i].name);
                        assert(self@.rooms[j].name == opened.rooms[j].name);
                    }
                    lemma_place_is(self@, chat_name@, at as int);
                }
                Ok(at)
            },
            Err(refusal) => {
                proof {
                    assert(self@.rooms =~= opened.rooms);
                }
                Err(refusal)
            },
        }
    }

    /// Starts the session of a connection that asks for the room `req_chat_name` under
    /// `username`: the connection is let in and shown the history, or turned away with an
    /// error frame. The session that comes back relays or is closed.
    pub fn join(
        &mut self,
        req_chat_name: String,
        username: String,
        page: Pagination,
        tx: UnboundedSender<String>,
    ) -> (session: Session)
        requires
            old(self)@.wf(),
        ensures
            final(self)@.wf(),
            (SessionView {
                chat_name: req_chat_name@,
                username: username@,
                state: SessionState::Connecting,
                held: Some(accepted(tx)),
                error: None,
            }).opened(old(self)@, session@, final(self)@),
    {
        let mut session = Session::new(req_chat_name, username, page, tx);
        session.open(self);
        session
    }
}

} // verus!
