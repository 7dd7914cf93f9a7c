use crate::chat::error::ChatError;
use crate::chat::message::{views, ChatMessage, ChatMessageView, Frame, Pagination};
use crate::chat::sink::{accepted, push_frame};
use crate::chat::wire::{encode_messages, encode_one, messages_frame, read_frame, reading};
use tokio::sync::mpsc::UnboundedSender;
use vstd::prelude::*;

verus! {

/// A member as the room's contracts see it: the display name, and the frames that the
/// member's outbound channel has taken in, oldest first.
pub struct MemberView {
    pub name: Seq<char>,
    pub stream: Seq<Seq<char>>,
}

/// A room as its contracts see it.
pub struct RoomView {
    pub name: Seq<char>,
    /// The members in the order in which they joined.
    pub members: Seq<MemberView>,
    /// The messages broadcast so far, newest first.
    pub history: Seq<ChatMessageView>,
}

impl RoomView {
    /// No display name is held twice.
    pub open spec fn wf(self) -> bool {
        forall|i: int, j: int|
            0 <= i < j < self.members.len() ==> self.members[i].name != self.members[j].name
    }

    /// `name` is held by the member at position `at`.
    pub open spec fn seats(self, name: Seq<char>, at: int) -> bool {
        0 <= at < self.members.len() && self.members[at].name == name
    }

    /// `name` is held by a member.
    pub open spec fn has(self, name: Seq<char>) -> bool {
        exists|at: int| self.seats(name, at)
    }

    /// Where the member called `name` stands.
    pub open spec fn seat(self, name: Seq<char>) -> int {
        choose|at: int| self.seats(name, at)
    }

    /// The frames that the channel of the member called `name` has taken in.
    pub open spec fn stream(self, name: Seq<char>) -> Seq<Seq<char>> {
        self.members[self.seat(name)].stream
    }

    /// The room called `name` with nobody in it and nothing said.
    pub open spec fn empty(name: Seq<char>) -> RoomView {
        RoomView { name, members: Seq::empty(), history: Seq::empty() }
    }

    /// The room after `name` was let in with a channel that has taken in `stream`.
    pub open spec fn enter(self, name: Seq<char>, stream: Seq<Seq<char>>) -> RoomView {
        RoomView { members: self.members.push(MemberView { name, stream }), ..self }
    }

    /// The room after `name` left: without that member if there was one, else as before.
    pub open spec fn leave(self, name: Seq<char>) -> RoomView {
        if self.has(name) {
            RoomView { members: self.members.remove(self.seat(name)), ..self }
        } else {
            self
        }
    }

    /// The room after the channel of the member at `at` took in `frame`.
    pub open spec fn handed(self, at: int, frame: Seq<char>) -> RoomView {
        RoomView {
            members: self.members.update(
                at,
                MemberView { name: self.members[at].name, stream: self.members[at].stream.push(frame) },
            ),
            ..self
        }
    }

    /// `after` is this room once `sender` has broadcast `message`: the message stands first
    /// in the history, nobody came or went, the sender's own channel took nothing in, and
    /// every other member's channel either took the frame of the message in behind what it
    /// had, or, being closed, took nothing.
    pub open spec fn broadcast(self, after: RoomView, sender: Seq<char>, message: ChatMessageView) -> bool {
        &&& after.name == self.name
        &&& after.history == seq![message] + self.history
        &&& after.members.len() == self.members.len()
        &&& forall|at: int|
            0 <= at < self.members.len() ==> {
                &&& (#[trigger] after.members[at]).name == self.members[at].name
                &&& self.members[at].name == sender ==> after.members[at].stream
                    == self.members[at].stream
                &&& self.members[at].name != sender ==> {
                    ||| after.members[at].stream == self.members[at].stream
                    ||| after.members[at].stream == self.members[at].stream.push(
                        messages_frame(seq![message]),
                    )
                }
            }
    }

    /// `after` is this room once the session of `sender` has taken in `frame`: a frame that
    /// can be read is broadcast as a message of `sender`, any other changes nothing.
    pub open spec fn relay(self, after: RoomView, sender: Seq<char>, frame: Frame) -> bool {
        match reading(frame) {
            Ok(text) => self.broadcast(after, sender, spoken(sender, text)),
            Err(_) => after == self,
        }
    }

    /// `after` is this room once the session of `sender` has taken in `frames` one by one, as
    /// far as they can be read: their messages stand first in the history, the newest
    /// first; nobody came or went; the sender's own channel took nothing in; and every
    /// other member's channel took in, behind what it had, those of the messages' frames
    /// that reached it open, in the order of the messages.
    pub open spec fn relayed(self, after: RoomView, sender: Seq<char>, frames: Seq<Frame>) -> bool {
        &&& after.name == self.name
        &&& after.history == recorded(sender, frames, stop(frames)) + self.history
        &&& after.members.len() == self.members.len()
        &&& forall|at: int|
            0 <= at < self.members.len() ==> {
                &&& (#[trigger] after.members[at]).name == self.members[at].name
                &&& self.members[at].name == sender ==> after.members[at].stream
                    == self.members[at].stream
                &&& self.members[at].name != sender ==> fed(
                    self.members[at].stream,
                    after.members[at].stream,
                    offered(sender, frames, stop(frames)),
                )
            }
    }
}

/// The message that `sender` sends by saying `text`.
pub open spec fn spoken(sender: Seq<char>, text: Seq<char>) -> ChatMessageView {
    ChatMessageView { author: sender, text }
}

/// How a step of a session ends, given what its frame amounts to.
pub open spec fn ended(read: Result<Seq<char>, ChatError>) -> Result<(), ChatError> {
    match read {
        Ok(_) => Ok(()),
        Err(error) => Err(error),
    }
}

/// Each of the first `n` frames can be read.
pub open spec fn readable(frames: Seq<Frame>, n: int) -> bool {
    forall|i: int| 0 <= i < n ==> (#[trigger] reading(frames[i])) is Ok
}

/// Relaying `frames` stops before frame `n`: all before it can be read, and it is the first
/// that cannot, or the end.
pub open spec fn stops(frames: Seq<Frame>, n: int) -> bool {
    &&& 0 <= n <= frames.len()
    &&& readable(frames, n)
    &&& n < frames.len() ==> reading(frames[n]) is Err
}

/// The number of frames that are relayed out of `frames`.
pub open spec fn stop(frames: Seq<Frame>) -> int {
    choose|n: int| stops(frames, n)
}

/// How relaying `frames` ends: well at the end of the frames, or with the error of the
/// first frame that cannot be read.
pub open spec fn verdict(frames: Seq<Frame>) -> Result<(), ChatError> {
    if stop(frames) < frames.len() {
        ended(reading(frames[stop(frames)]))
    } else {
        Ok(())
    }
}

/// The message that frame `k` of `frames` makes in the mouth of `sender`.
pub open spec fn uttered(sender: Seq<char>, frames: Seq<Frame>, k: int) -> ChatMessageView {
    spoken(sender, reading(frames[k])->Ok_0)
}

/// The messages that the first `n` frames make, newest first.
pub open spec fn recorded(sender: Seq<char>, frames: Seq<Frame>, n: int) -> Seq<ChatMessageView> {
    Seq::new(n as nat, |k: int| uttered(sender, frames, n - 1 - k))
}

/// The outbound frames that the first `n` frames lead to, oldest first.
pub open spec fn offered(sender: Seq<char>, frames: Seq<Frame>, n: int) -> Seq<Seq<char>> {
    Seq::new(n as nat, |k: int| messages_frame(seq![uttered(sender, frames, k)]))
}

/// `after` is `before` followed by some of the frames of `offer`, in the order of `offer`.
pub open spec fn fed(before: Seq<Seq<char>>, after: Seq<Seq<char>>, offer: Seq<Seq<char>>) -> bool
    decreases offer.len(),
{
    if offer.len() == 0 {
        after == before
    } else {
        ||| fed(before, after, offer.drop_last())
        ||| after.len() > 0 && after.last() == offer.last() && fed(
            before,
            after.drop_last(),
            offer.drop_last(),
        )
    }
}

/// Only one count fits `stops`.
pub proof fn lemma_stop_is(frames: Seq<Frame>, n: int)
    requires
        stops(frames, n),
    ensures
        stop(frames) == n,
{
    let m = stop(frames);
    assert(stops(frames, m));
    if m < n {
        assert(reading(frames[m]) is Ok);
    } else if n < m {
        assert(reading(frames[n]) is Ok);
    }
}

/// One connection that was let into a room.
struct Member {
    name: String,
    sink: UnboundedSender<String>,
}

impl View for Member {
    type V = MemberView;

    closed spec fn view(&self) -> MemberView {
        MemberView { name: self.name@, stream: accepted(self.sink) }
    }
}

/// A named room: who is in it, each with the channel that leads to the connection, and
/// what was said, newest first.
pub struct Chat {
    name: String,
    users: Vec<Member>,
    messages: Vec<ChatMessage>,
}

impl View for Chat {
    type V = RoomView;

    closed spec fn view(&self) -> RoomView {
        RoomView {
            name: self.name@,
            members: self.users@.map_values(|member: Member| member@),
            history: views(self.messages@),
        }
    }
}

impl Chat {
    /// An empty room called `name`.
    pub fn new(name: String) -> (chat: Chat)
        ensures
            chat@ == RoomView::empty(name@),
    {
        let chat = Chat { name, users: Vec::new(), messages: Vec::new() };
        proof {
            assert(chat@.members =~= Seq::empty());
            assert(chat@.history =~= Seq::empty());
        }
        chat
    }

    /// The room's name.
    pub fn name(&self) -> (name: &String)
        ensures
            name@ == self@.name,
    {
        &self.name
    }

    /// The display names held in the room, in the order in which they joined.
    pub fn usernames(&self) -> (names: Vec<String>)
        ensures
            names@.len() == self@.members.len(),
            forall|at: int| 0 <= at < names@.len() ==> (#[trigger] names@[at])@ == self@.members[at].name,
    {
        let mut names: Vec<String> = Vec::new();
        let mut at: usize = 0;
        while at < self.users.len()
            invariant
                at <= self.users.len(),
                names@.len() == at,
                forall|i: int| 0 <= i < at ==> (#[trigger] names@[i])@ == self@.members[i].name,
            decreases self.users.len() - at,
        {
            names.push(self.users[at].name.clone());
            at = at + 1;
        }
        names
    }

    /// Where the member called `username` stands, if the name is held.
    pub fn position(&self, username: &String) -> (found: Option<usize>)
        ensures
            match found {
                Some(at) => self@.seats(username@, at as int),
                None => !self@.has(username@),
            },
    {
        let mut at: usize = 0;
        while at < self.users.len()
            invariant
                at <= self.users.len(),
                forall|i: int| 0 <= i < at ==> !self@.seats(username@, i),
            decreases self.users.len() - at,
        {
            if self.users[at].name == *username {
                return Some(at);
            }
            at = at + 1;
        }
        None
    }

    /// Lets a connection in under `username`, unless the name is held: then nothing
    /// changes, and the error comes back with the channel, unused.
    pub fn connect_user(&mut self, username: String, tx: UnboundedSender<String>) -> (entered: Result<
        (),
        (ChatError, UnboundedSender<String>),
    >)
        requires
            old(self)@.wf(),
        ensures
            final(self)@.wf(),
            old(self)@.has(username@) ==> final(self)@ == old(self)@ && (entered matches Err(
                (ChatError::UsernameTaken(room), back),
            ) && room@ == old(self)@.name && back == tx),
            !old(self)@.has(username@) ==> entered is Ok && final(self)@ == old(self)@.enter(
                username@,
                accepted(tx),
            ),
    {
        match self.position(&username) {
            Some(_) => Err((ChatError::UsernameTaken(self.name.clone()), tx)),
            None => {
                let ghost before = self@;
                self.users.push(Member { name: username, sink: tx });
                proof {
                    assert(self@.members =~= before.members.push(
                        MemberView { name: username@, stream: accepted(tx) },
                    ));
                    assert forall|i: int, j: int| 0 <= i < j < self@.members.len() implies self@.members[i].name
                        != self@.members[j].name by {
                        if j == before.members.len() {
                            assert(!before.seats(username@, i));
                        }
                    }
                }
                Ok(())
            },
        }
    }

    /// Takes the member called `username` out of the room and hands back the channel to
    /// the connection. Where the name is not held, nothing changes and nothing comes back.
    pub fn disconnect_user(&mut self, username: &String) -> (sink: Option<UnboundedSender<String>>)
        requires
            old(self)@.wf(),
        ensures
            final(self)@.wf(),
            final(self)@ == old(self)@.leave(username@),
            !final(self)@.has(username@),
            match sink {
                Some(tx) => old(self)@.has(username@) && accepted(tx) == old(self)@.stream(username@),
                None => !old(self)@.has(username@),
            },
    {
        match self.position(username) {
            Some(at) => {
                let ghost before = self@;
                proof {
                    assert(before.seats(username@, at as int));
                    assert(before.seats(username@, before.seat(username@)));
                    assert(before.seat(username@) == at);
                }
                let member = self.users.remove(at);
                proof {
                    assert(self@.members =~= before.members.remove(at as int));
                    assert forall|i: int| !self@.seats(username@, i) by {
                        if 0 <= i < self@.members.len() {
                            if i < at {
                                assert(self@.members[i] == before.members[i]);
                            } else {
                                assert(self@.members[i] == before.members[i + 1]);
                            }
                        }
                    }
                }
                Some(member.sink)
            },
            None => None,
        }
    }

    /// The history as it stands, newest first. The page asked for is not applied.
    pub fn snapshot_history(&self, _page: &Pagination) -> (history: Vec<ChatMessage>)
        ensures
            views(history@) == self@.history,
    {
        let mut history: Vec<ChatMessage> = Vec::new();
        let mut at: usize = 0;
        while at < self.messages.len()
            invariant
                at <= self.messages.len(),
                views(history@) == views(self.messages@).take(at as int),
            decreases self.messages.len() - at,
        {
            let ghost shorter = history@;
            history.push(self.messages[at].duplicate());
            proof {
                assert(views(history@) =~= views(shorter).push(self.messages@[at as int]@));
                assert(views(history@) =~= views(self.messages@).take(at as int + 1));
            }
            at = at + 1;
        }
        proof {
            assert(views(self.messages@).take(at as int) =~= views(self.messages@));
        }
        history
    }

    /// Hands the member called `username` the whole history as one frame, and says
    /// whether the member's channel took it. Where the name is not held, nothing is handed
    /// over.
    pub fn get_start_messages(&mut self, username: &String, page: Pagination) -> (taken: bool)
        requires
            old(self)@.wf(),
        ensures
            taken ==> old(self)@.has(username@) && final(self)@ == old(self)@.handed(
                old(self)@.seat(username@),
                messages_frame(old(self)@.history),
            ),
            !taken ==> final(self)@ == old(self)@,
    {
        match self.position(username) {
            Some(at) => {
                let ghost before = self@;
                proof {
                    assert(before.seats(username@, at as int));
                    assert(before.seats(username@, before.seat(username@)));
                    assert(before.seat(username@) == at);
                }
                let history = self.snapshot_history(&page);
                let frame = encode_messages(&history);
                let taken = push_frame(&mut self.users[at].sink, frame);
                proof {
                    if taken {
                        assert(self@.members =~= before.handed(at as int, messages_frame(before.history)).members);
                    } else {
                        assert(self@.members =~= before.members);
                    }
                }
                taken
            },
            None => false,
        }
    }

    /// Puts `message` first in the history and hands its frame to every member but
    /// `sender`. A channel that is closed takes nothing, and that is not reported: the
    /// member behind it leaves through its own session.
    pub fn broadcast(&mut self, sender: &String, message: ChatMessage)
        ensures
            old(self)@.broadcast(final(self)@, sender@, message@),
            old(self)@.wf() ==> final(self)@.wf(),
    {
        let ghost before = self@;
        let frame = encode_one(&message);
        self.messages.insert(0, message);
        proof {
            assert(self@.history =~= seq![message@] + before.history);
            assert(self@.members =~= before.members);
        }
        let mut at: usize = 0;
        while at < self.users.len()
            invariant
                at <= self.users.len(),
                frame@ == messages_frame(seq![message@]),
                self@.name == before.name,
                self@.history == seq![message@] + before.history,
                self@.members.len() == before.members.len(),
                forall|i: int| at <= i < self.users.len() ==> self@.members[i] == before.members[i],
                forall|i: int|
                    0 <= i < at ==> {
                        &&& (#[trigger] self@.members[i]).name == before.members[i].name
                        &&& before.members[i].name == sender@ ==> self@.members[i].stream
                            == before.members[i].stream
                        &&& before.members[i].name != sender@ ==> {
                            ||| self@.members[i].stream == before.members[i].stream
                            ||| self@.members[i].stream == before.members[i].stream.push(frame@)
                        }
                    },
            decreases self.users.len() - at,
        {
            let ghost during = self@;
            if !(self.users[at].name == *sender) {
                let _ = push_frame(&mut self.users[at].sink, frame.clone());
            }
            proof {
                assert(self@.members.len() == during.members.len());
                assert forall|i: int| 0 <= i < self.users.len() && i != at implies self@.members[i]
                    == during.members[i] by {}
                assert(during.members[at as int] == before.members[at as int]);
                assert(self@.members[at as int].name == during.members[at as int].name);
                assert(self@.members[at as int].stream == during.members[at as int].stream
                    || self@.members[at as int].stream == during.members[at as int].stream.push(frame@));
                assert(before.members[at as int].name == sender@ ==> self@.members[at as int].stream
                    == during.members[at as int].stream);
                assert forall|i: int| 0 <= i < at implies {
                        &&& (#[trigger] self@.members[i]).name == before.members[i].name
                        &&& before.members[i].name == sender@ ==> self@.members[i].stream
                            == before.members[i].stream
                        &&& before.members[i].name != sender@ ==> {
                            ||| self@.members[i].stream == before.members[i].stream
                            ||| self@.members[i].stream == before.members[i].stream.push(frame@)
                        }
                } by {
                    assert(self@.members[i] == during.members[i]);
                }
            }
            at = at + 1;
        }
    }

    /// Takes in one inbound frame of the session of `username`: a frame that can be read is
    /// broadcast in the name of `username`; any other changes nothing and comes back as
    /// the error that ends the session.
    pub fn relay(&mut self, username: &String, frame: &Frame) -> (outcome: Result<(), ChatError>)
        ensures
            old(self)@.relay(final(self)@, username@, *frame),
            outcome == ended(reading(*frame)),
            old(self)@.wf() ==> final(self)@.wf(),
    {
        match read_frame(frame) {
            Ok(incoming) => {
                let message = ChatMessage::new(username.clone(), incoming.into_text());
                self.broadcast(username, message);
                Ok(())
            },
            Err(error) => Err(error),
        }
    }

    /// Takes in the inbound frames of the session of `username`, one after the other, until
    /// they end or one cannot be read. The frames before that one are broadcast; it and
    /// those behind it are not looked at.
    pub fn send_messages(&mut self, username: &String, frames: Vec<Frame>) -> (outcome: Result<
        (),
        ChatError,
    >)
        ensures
            old(self)@.relayed(final(self)@, username@, frames@),
            outcome == verdict(frames@),
            old(self)@.wf() ==> final(self)@.wf(),
    {
        let ghost before = self@;
        let mut at: usize = 0;
        proof {
            assert(recorded(username@, frames@, 0) + before.history =~= before.history);
        }
        while at < frames.len()
            invariant
                at <= frames.len(),
                before == old(self)@,
                readable(frames@, at as int),
                self@.name == before.name,
                self@.history == recorded(username@, frames@, at as int) + before.history,
                self@.members.len() == before.members.len(),
                before.wf() ==> self@.wf(),
                forall|i: int|
                    0 <= i < before.members.len() ==> {
                        &&& (#[trigger] self@.members[i]).name == before.members[i].name
                        &&& before.members[i].name == username@ ==> self@.members[i].stream
                            == before.members[i].stream
                        &&& before.members[i].name != username@ ==> fed(
                            before.members[i].stream,
                            self@.members[i].stream,
                            offered(username@, frames@, at as int),
                        )
                    },
            decreases frames.len() - at,
        {
            let ghost during = self@;
            match self.relay(username, &frames[at]) {
                Ok(_) => {
                    proof {
                        let message = uttered(username@, frames@, at as int);
                        assert(during.broadcast(self@, username@, message));
                        assert(recorded(username@, frames@, at as int + 1) =~= seq![message]
                            + recorded(username@, frames@, at as int));
                        let offer = offered(username@, frames@, at as int + 1);
                        assert(offer.drop_last() =~= offered(username@, frames@, at as int));
                        assert(offer.last() == messages_frame(seq![message]));
                        assert forall|i: int| 0 <= i < before.members.len() implies {
                            &&& (#[trigger] self@.members[i]).name == before.members[i].name
                            &&& before.members[i].name == username@ ==> self@.members[i].stream
                                == before.members[i].stream
                            &&& before.members[i].name != username@ ==> fed(
                                before.members[i].stream,
                                self@.members[i].stream,
                                offer,
                            )
                        } by {
                            assert(during.members[i].name == before.members[i].name);
                            if self@.members[i].stream == during.members[i].stream.push(
                                messages_frame(seq![message]),
                            ) {
                                assert(self@.members[i].stream.drop_last() =~= during.members[i].stream);
                            }
                        }
                    }
                    at = at + 1;
                },
                Err(error) => {
                    proof {
                        assert(reading(frames@[at as int]) is Err);
                        assert(self@ == during);
                        lemma_stop_is(frames@, at as int);
                    }
                    return Err(error);
                },
            }
        }
        proof {
            lemma_stop_is(frames@, at as int);
        }
        Ok(())
    }
}

} // verus!
