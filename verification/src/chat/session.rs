use crate::chat::error::ChatError;
use crate::chat::message::{Frame, Pagination};
use crate::chat::registry::{lemma_place_is, Chats, ChatsView};
use crate::chat::room::spoken;
use crate::chat::sink::{accepted, push_frame};
use crate::chat::wire::{error_frame, messages_frame, reading};
use tokio::sync::mpsc::UnboundedSender;
use vstd::prelude::*;

verus! {

/// Where a connection stands. A session only ever moves down this list.
#[derive(Debug, Clone, Copy, PartialEq, Eq, Structural)]
pub enum SessionState {
    /// Not yet let into a room.
    Connecting,
    /// Let in; the history has not been handed over yet.
    Joined,
    /// In the room: inbound frames are broadcast.
    Relaying,
    /// Over. The session is in no room.
    Closed,
}

/// A session as its contracts see it.
pub struct SessionView {
    pub chat_name: Seq<char>,
    pub username: Seq<char>,
    pub state: SessionState,
    /// While the session itself holds the channel to its connection: the frames that the
    /// channel has taken in. `None` while the room holds the channel.
    pub held: Option<Seq<Seq<char>>>,
    /// Why the session was closed, where it was closed for an error.
    pub error: Option<ChatError>,
}

impl SessionView {
    /// This session, closed, with nothing else changed.
    pub open spec fn closed(self) -> SessionView {
        SessionView { state: SessionState::Closed, ..self }
    }

    /// `after` and `chats_after` are this session and `chats` once the session has asked to
    /// be let in.
    ///
    /// Where the display name is held in the room, the registry stays as it is, and the
    /// session is closed with the error that names the room; the channel, still with the
    /// session, took the error's frame in unless it was closed. Otherwise the room is there,
    /// made if need be, with the session's channel behind its other members; that channel
    /// took the room's whole history in as one frame, unless it was closed; and the session
    /// relays.
    pub open spec fn opened(self, chats: ChatsView, after: SessionView, chats_after: ChatsView) -> bool {
        if self.state != SessionState::Connecting {
            after == self && chats_after == chats
        } else if self.held is None {
            after == self.closed() && chats_after == chats
        } else if chats.taken(self.chat_name, self.username) {
            &&& chats_after == chats
            &&& after.chat_name == self.chat_name
            &&& after.username == self.username
            &&& after.state == SessionState::Closed
            &&& after.error matches Some(ChatError::UsernameTaken(room)) && room@ == self.chat_name
            &&& after.held matches Some(stream) && (stream == self.held->Some_0 || stream
                == self.held->Some_0.push(error_frame(after.error->Some_0.sentence())))
        } else {
            let entered = chats.insert_chat(self.chat_name, self.username, self.held->Some_0);
            let at = entered.place(self.chat_name);
            let room = entered.rooms[at];
            &&& after == SessionView { state: SessionState::Relaying, held: None, ..self }
            &&& chats_after == entered || chats_after == entered.put(
                at,
                room.handed(room.members.len() - 1, messages_frame(room.history)),
            )
        }
    }

    /// `after` and `chats_after` are this session and `chats` once the session has taken in
    /// `frame`.
    ///
    /// A session that does not relay takes nothing in. A frame that can be read is
    /// broadcast in the room as a message of this session's display name. Any other frame
    /// ends the session: first the member leaves the room, then the channel, back with the
    /// session, takes the error's frame in unless it is closed.
    pub open spec fn received(
        self,
        chats: ChatsView,
        frame: Frame,
        after: SessionView,
        chats_after: ChatsView,
    ) -> bool {
        if self.state != SessionState::Relaying {
            after == self && chats_after == chats
        } else if !chats.has(self.chat_name) {
            after == self.closed() && chats_after == chats
        } else {
            let at = chats.place(self.chat_name);
            let room = chats.rooms[at];
            match reading(frame) {
                Ok(text) => {
                    &&& after == self
                    &&& chats_after == chats.put(at, chats_after.rooms[at])
                    &&& room.broadcast(chats_after.rooms[at], self.username, spoken(self.username, text))
                },
                Err(error) => {
                    &&& chats_after == chats.put(at, room.leave(self.username))
                    &&& after.chat_name == self.chat_name
                    &&& after.username == self.username
                    &&& after.state == SessionState::Closed
                    &&& after.error == Some(error)
                    &&& if room.has(self.username) {
                        after.held matches Some(stream) && (stream == room.stream(self.username)
                            || stream == room.stream(self.username).push(error_frame(error.sentence())))
                    } else {
                        after.held == self.held
                    }
                },
            }
        }
    }

    /// `after` and `chats_after` are this session and `chats` once the inbound frames have
    /// come to their end: a relaying session leaves its room and gets its channel back,
    /// and nothing is handed to the connection; any session is closed.
    pub open spec fn finished(self, chats: ChatsView, after: SessionView, chats_after: ChatsView) -> bool {
        if self.state != SessionState::Relaying || !chats.has(self.chat_name) {
            after == self.closed() && chats_after == chats
        } else {
            let at = chats.place(self.chat_name);
            let room = chats.rooms[at];
            &&& chats_after == chats.put(at, room.leave(self.username))
            &&& after == SessionView {
                state: SessionState::Closed,
                held: if room.has(self.username) {
                    Some(room.stream(self.username))
                } else {
                    self.held
                },
                ..self
            }
        }
    }
}

/// One connection: the room and the display name it asked for, and how far it has come.
pub struct Session {
    chat_name: String,
    username: String,
    page: Pagination,
    state: SessionState,
    sink: Option<UnboundedSender<String>>,
    error: Option<ChatError>,
    /// Where the room was found last.
    room: usize,
}

impl View for Session {
    type V = SessionView;

    closed spec fn view(&self) -> SessionView {
        SessionView {
            chat_name: self.chat_name@,
            username: self.username@,
            state: self.state,
            held: match self.sink {
                Some(tx) => Some(accepted(tx)),
                None => None,
            },
            error: self.error,
        }
    }
}

impl Session {
    /// A connection that asks for the room `req_chat_name` under `username`, with the
    /// channel `tx` that leads to it.
    pub fn new(req_chat_name: String, username: String, page: Pagination, tx: UnboundedSender<String>) -> (session:
        Session)
        ensures
            session@ == (SessionView {
                chat_name: req_chat_name@,
                username: username@,
                state: SessionState::Connecting,
                held: Some(accepted(tx)),
                error: None,
            }),
    {
        Session {
            chat_name: req_chat_name,
            username,
            page,
            state: SessionState::Connecting,
            sink: Some(tx),
            error: None,
            room: 0,
        }
    }

    /// Where the session stands.
    pub fn state(&self) -> (state: SessionState)
        ensures
            state == self@.state,
    {
        self.state
    }

    /// Why the session was closed, where it was closed for an error.
    pub fn error(&self) -> (error: &Option<ChatError>)
        ensures
            *error == self@.error,
    {
        &self.error
    }

    /// Asks to be let into the room.
    pub fn open(&mut self, chats: &mut Chats)
        requires
            old(chats)@.wf(),
        ensures
            final(chats)@.wf(),
            old(self)@.opened(old(chats)@, final(self)@, final(chats)@),
    {
        match self.state {
            SessionState::Connecting => {},
            _ => {
                return ;
            },
        }
        match self.sink.take() {
            None => {
                self.state = SessionState::Closed;
            },
            Some(tx) => {
                let ghost before = chats@;
                match chats.insert_chat(self.chat_name.clone(), self.username.clone(), tx) {
                    Ok(at) => {
                        self.room = at;
                        self.state = SessionState::Joined;
                        let ghost entered = chats@;
                        proof {
                            lemma_place_is(entered, self.chat_name@, at as int);
                        }
                        let taken = chats.chat_mut(at).get_start_messages(&self.username, self.page);
                        self.state = SessionState::Relaying;
                        proof {
                            let room = entered.rooms[at as int];
                            let opened = before.get_or_create(self.chat_name@);
                            assert(room == opened.rooms[at as int].enter(
                                self.username@,
                                old(self)@.held->Some_0,
                            ));
                            if taken {
                                assert(room.seats(self.username@, room.members.len() - 1));
                                assert(room.seats(self.username@, room.seat(self.username@)));
                                assert(chats@.rooms =~= entered.put(
                                    at as int,
                                    room.handed(room.members.len() - 1, messages_frame(room.history)),
                                ).rooms);
                            } else {
                                assert(chats@.rooms =~= entered.rooms);
                            }
                            assert forall|i: int| 0 <= i < chats@.rooms.len() implies (#[trigger] chats@.rooms[i]).wf()
                                && chats@.rooms[i].name == entered.rooms[i].name by {
                                assert(entered.rooms[i].wf());
                            }
                        }
                    },
                    Err(refusal) => {
                        let (error, mut back) = refusal;
                        let frame = error.to_request_body();
                        let _ = push_frame(&mut back, frame);
                        self.sink = Some(back);
                        self.error = Some(error);
                        self.state = SessionState::Closed;
                    },
                }
            },
        }
    }

    /// Takes in one inbound frame.
    pub fn receive(&mut self, chats: &mut Chats, frame: &Frame)
        requires
            old(chats)@.wf(),
        ensures
            final(chats)@.wf(),
            old(self)@.received(old(chats)@, *frame, final(self)@, final(chats)@),
    {
        match self.state {
            SessionState::Relaying => {},
            _ => {
                return ;
            },
        }
        let ghost before = chats@;
        match chats.locate(self.room, &self.chat_name) {
            None => {
                self.state = SessionState::Closed;
            },
            Some(at) => {
                proof {
                    lemma_place_is(before, self.chat_name@, at as int);
                    assert(before.rooms[at as int].wf());
                }
                self.room = at;
                let room = chats.chat_mut(at);
                match room.relay(&self.username, frame) {
                    Ok(_) => {},
                    Err(error) => {
                        match room.disconnect_user(&self.username) {
                            Some(mut tx) => {
                                let frame = error.to_request_body();
                                let _ = push_frame(&mut tx, frame);
                                self.sink = Some(tx);
                            },
                            None => {},
                        }
                        self.error = Some(error);
                        self.state = SessionState::Closed;
                    },
                }
                proof {
                    assert(chats@.rooms[at as int].name == before.rooms[at as int].name);
                    assert(chats@ == before.put(at as int, chats@.rooms[at as int]));
                    assert forall|i: int| 0 <= i < chats@.rooms.len() implies (#[trigger] chats@.rooms[i]).wf()
                        && chats@.rooms[i].name == before.rooms[i].name by {
                        assert(before.rooms[i].wf());
                    }
                }
            },
        }
    }

    /// Ends the session when the inbound frames have come to their end.
    pub fn finish(&mut self, chats: &mut Chats)
        requires
            old(chats)@.wf(),
        ensures
            final(chats)@.wf(),
            old(self)@.finished(old(chats)@, final(self)@, final(chats)@),
    {
        match self.state {
            SessionState::Relaying => {},
            _ => {
                self.state = SessionState::Closed;
                return ;
            },
        }
        let ghost before = chats@;
        match chats.locate(self.room, &self.chat_name) {
            None => {
                self.state = SessionState::Closed;
            },
            Some(at) => {
                proof {
                    lemma_place_is(before, self.chat_name@, at as int);
                    assert(before.rooms[at as int].wf());
                }
                match chats.chat_mut(at).disconnect_user(&self.username) {
                    Some(tx) => {
                        self.sink = Some(tx);
                    },
                    None => {},
                }
                self.state = SessionState::Closed;
                proof {
                    assert(chats@ == before.put(at as int, chats@.rooms[at as int]));
                    assert forall|i: int| 0 <= i < chats@.rooms.len() implies (#[trigger] chats@.rooms[i]).wf()
                        && chats@.rooms[i].name == before.rooms[i].name by {
                        assert(before.rooms[i].wf());
                    }
                }
            },
        }
    }
}

} // verus!
