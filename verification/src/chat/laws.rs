use crate::chat::message::{ChatMessageView, Frame};
use crate::chat::registry::{lemma_place_is, ChatsView};
use crate::chat::room::{fed, RoomView};
use crate::chat::session::{SessionState, SessionView};
use crate::chat::wire::{messages_frame, reading};
use vstd::prelude::*;

verus! {

/// In a well-formed room a display name stands in one place only.
pub proof fn lemma_seat_is(room: RoomView, name: Seq<char>, at: int)
    requires
        room.wf(),
        room.seats(name, at),
    ensures
        room.has(name),
        room.seat(name) == at,
{
    assert(room.seats(name, room.seat(name)));
}

/// After a member has left, the display name is free.
pub proof fn lemma_left_is_out(room: RoomView, name: Seq<char>)
    requires
        room.wf(),
    ensures
        room.leave(name).wf(),
        !room.leave(name).has(name),
        forall|other: Seq<char>| other != name ==> (room.leave(name).has(other) <==> room.has(other)),
{
    let after = room.leave(name);
    if room.has(name) {
        let gone = room.seat(name);
        assert(room.seats(name, gone));
        assert forall|i: int| 0 <= i < after.members.len() implies after.members[i] == room.members[if i
            < gone {
            i
        } else {
            i + 1
        }] by {}
        assert forall|i: int| !after.seats(name, i) by {
            if after.seats(name, i) {
                if i < gone {
                    assert(room.members[i].name == room.members[gone].name);
                } else {
                    assert(room.members[i + 1].name == room.members[gone].name);
                }
            }
        }
        assert forall|other: Seq<char>| other != name implies (after.has(other) <==> room.has(other)) by {
            if after.has(other) {
                let i = after.seat(other);
                assert(after.seats(other, i));
                assert(room.seats(other, if i < gone {
                    i
                } else {
                    i + 1
                }));
            }
            if room.has(other) {
                let j = room.seat(other);
                assert(room.seats(other, j));
                assert(after.seats(other, if j < gone {
                    j
                } else {
                    j - 1
                }));
            }
        }
    }
}

/// Leaving twice is leaving once: the second call finds the name gone and changes nothing.
pub proof fn law_leave_is_idempotent(room: RoomView, name: Seq<char>)
    requires
        room.wf(),
    ensures
        room.leave(name).leave(name) == room.leave(name),
{
    lemma_left_is_out(room, name);
}

/// A member who has left may come back at once: the name is free again.
pub proof fn law_rejoin_after_leave(room: RoomView, name: Seq<char>, stream: Seq<Seq<char>>)
    requires
        room.wf(),
    ensures
        !room.leave(name).has(name),
        room.leave(name).enter(name, stream).has(name),
{
    lemma_left_is_out(room, name);
    let back = room.leave(name).enter(name, stream);
    assert(back.seats(name, back.members.len() - 1));
}

/// Letting a free name in keeps the room well formed, holds the name, and leaves every
/// other name as it was.
pub proof fn lemma_entered(room: RoomView, name: Seq<char>, stream: Seq<Seq<char>>)
    requires
        room.wf(),
        !room.has(name),
    ensures
        room.enter(name, stream).wf(),
        room.enter(name, stream).has(name),
        room.enter(name, stream).stream(name) == stream,
        forall|other: Seq<char>| other != name ==> (room.enter(name, stream).has(other) <==> room.has(other)),
{
    let after = room.enter(name, stream);
    let last = room.members.len() as int;
    assert forall|i: int, j: int| 0 <= i < j < after.members.len() implies after.members[i].name
        != after.members[j].name by {
        if j == last {
            assert(!room.seats(name, i));
        }
    }
    assert(after.seats(name, last));
    lemma_seat_is(after, name, last);
    assert forall|other: Seq<char>| other != name implies (after.has(other) <==> room.has(other)) by {
        if after.has(other) {
            assert(room.seats(other, after.seat(other)));
        }
        if room.has(other) {
            assert(after.seats(other, room.seat(other)));
        }
    }
}

/// Two connections that ask one room for different display names, both free, are both let
/// in, whichever is served first, and both names are held afterwards.
pub proof fn law_distinct_names_both_join(
    chats: ChatsView,
    room: Seq<char>,
    first: Seq<char>,
    second: Seq<char>,
    first_stream: Seq<Seq<char>>,
    second_stream: Seq<Seq<char>>,
)
    requires
        chats.wf(),
        first != second,
        !chats.taken(room, first),
        !chats.taken(room, second),
    ensures
        ({
            let one = chats.insert_chat(room, first, first_stream);
            let both = one.insert_chat(room, second, second_stream);
            &&& one.wf()
            &&& one.taken(room, first)
            &&& !one.taken(room, second)
            &&& both.wf()
            &&& both.taken(room, first)
            &&& both.taken(room, second)
        }),
{
    let one = chats.insert_chat(room, first, first_stream);
    lemma_inserted(chats, room, first, first_stream);
    assert(!one.taken(room, second)) by {
        if chats.has(room) {
        } else {
        }
    }
    lemma_inserted(one, room, second, second_stream);
}

/// What asking to be let in under a free name does to the registry: the room is there and
/// holds the name, and the names held before are held still, no others.
pub proof fn lemma_inserted(chats: ChatsView, room: Seq<char>, name: Seq<char>, stream: Seq<Seq<char>>)
    requires
        chats.wf(),
        !chats.taken(room, name),
    ensures
        chats.insert_chat(room, name, stream).wf(),
        chats.insert_chat(room, name, stream).taken(room, name),
        forall|other: Seq<char>|
            other != name ==> (chats.insert_chat(room, name, stream).taken(room, other) <==> chats.taken(
                room,
                other,
            )),
{
    let opened = chats.get_or_create(room);
    let made = !chats.has(room);
    if made {
        assert(opened.holds(room, chats.rooms.len() as int));
        assert forall|i: int, j: int| 0 <= i < j < opened.rooms.len() implies opened.rooms[i].name
            != opened.rooms[j].name by {
            if j == chats.rooms.len() {
                assert(!chats.holds(room, i));
            }
        }
        assert(opened.wf());
    }
    let at = opened.place(room);
    assert(opened.holds(room, at));
    let before = opened.rooms[at];
    if made {
        lemma_place_is(opened, room, chats.rooms.len() as int);
        assert(before == RoomView::empty(room));
        assert forall|other: Seq<char>| !before.has(other) by {
            if before.has(other) {
                assert(before.seats(other, before.seat(other)));
            }
        }
    } else {
        assert(before == chats.room(room));
    }
    assert(!before.has(name));
    lemma_entered(before, name, stream);
    let after = chats.insert_chat(room, name, stream);
    assert(after == opened.put(at, before.enter(name, stream)));
    assert forall|i: int, j: int| 0 <= i < j < after.rooms.len() implies after.rooms[i].name
        != after.rooms[j].name by {
        assert(after.rooms[i].name == opened.rooms[i].name);
        assert(after.rooms[j].name == opened.rooms[j].name);
    }
    assert forall|i: int| 0 <= i < after.rooms.len() implies (#[trigger] after.rooms[i]).wf() by {
        if i != at {
            assert(opened.rooms[i].wf());
        }
    }
    assert(after.holds(room, at));
    lemma_place_is(after, room, at);
}

/// Asking to be let in under a name that is held changes nothing: not who is in the
/// room, not what was said, not any other room.
pub proof fn law_taken_name_changes_nothing(
    chats: ChatsView,
    room: Seq<char>,
    name: Seq<char>,
    stream: Seq<Seq<char>>,
)
    requires
        chats.wf(),
        chats.taken(room, name),
    ensures
        chats.insert_chat(room, name, stream) == chats,
{
}

/// Once let in, a name is held, so that a second connection asking for it is turned away
/// and changes nothing.
pub proof fn law_second_join_is_refused(
    chats: ChatsView,
    room: Seq<char>,
    name: Seq<char>,
    first_stream: Seq<Seq<char>>,
    second_stream: Seq<Seq<char>>,
)
    requires
        chats.wf(),
        !chats.taken(room, name),
    ensures
        chats.insert_chat(room, name, first_stream).taken(room, name),
        chats.insert_chat(room, name, first_stream).insert_chat(room, name, second_stream)
            == chats.insert_chat(room, name, first_stream),
{
    lemma_inserted(chats, room, name, first_stream);
}

/// A broadcast leaves everybody in place.
pub proof fn lemma_broadcast_keeps_seats(
    before: RoomView,
    after: RoomView,
    sender: Seq<char>,
    message: ChatMessageView,
    name: Seq<char>,
)
    requires
        before.wf(),
        before.broadcast(after, sender, message),
    ensures
        after.wf(),
        after.has(name) <==> before.has(name),
        before.has(name) ==> after.seat(name) == before.seat(name),
{
    assert forall|i: int, j: int| 0 <= i < j < after.members.len() implies after.members[i].name
        != after.members[j].name by {
        assert(after.members[i].name == before.members[i].name);
        assert(after.members[j].name == before.members[j].name);
    }
    if before.has(name) {
        let at = before.seat(name);
        assert(before.seats(name, at));
        assert(after.members[at].name == name);
        assert(after.seats(name, at));
        lemma_seat_is(after, name, at);
    }
    if after.has(name) {
        let at = after.seat(name);
        assert(after.seats(name, at));
        assert(after.members[at].name == before.members[at].name);
        assert(before.seats(name, at));
    }
}

/// Nobody is handed the own message: a broadcast leaves the sender's own channel with
/// exactly the frames it had.
pub proof fn law_sender_is_skipped(before: RoomView, after: RoomView, sender: Seq<char>, message: ChatMessageView)
    requires
        before.wf(),
        before.has(sender),
        before.broadcast(after, sender, message),
    ensures
        after.has(sender),
        after.stream(sender) == before.stream(sender),
{
    lemma_broadcast_keeps_seats(before, after, sender, message, sender);
    let at = before.seat(sender);
    assert(before.seats(sender, at));
    assert(after.members[at].name == before.members[at].name);
}

/// Two broadcasts of one member, the second begun after the first was done, stand in the
/// history newest first, and reach every other member in the order in which they were
/// sent: a channel that took both frames in holds the first straight before the second, and
/// no channel holds the second before the first.
pub proof fn law_broadcasts_keep_their_order(
    start: RoomView,
    between: RoomView,
    end: RoomView,
    sender: Seq<char>,
    first: ChatMessageView,
    second: ChatMessageView,
    name: Seq<char>,
)
    requires
        start.wf(),
        start.broadcast(between, sender, first),
        between.broadcast(end, sender, second),
        start.has(name),
        name != sender,
    ensures
        end.history == seq![second, first] + start.history,
        end.has(name),
        fed(start.stream(name), end.stream(name), seq![messages_frame(seq![first]), messages_frame(seq![second])]),
        between.stream(name) == start.stream(name).push(messages_frame(seq![first])) && end.stream(name)
            == between.stream(name).push(messages_frame(seq![second])) ==> end.stream(name)
            == start.stream(name) + seq![messages_frame(seq![first]), messages_frame(seq![second])],
{
    lemma_broadcast_keeps_seats(start, between, sender, first, name);
    lemma_broadcast_keeps_seats(between, end, sender, second, name);
    let at = start.seat(name);
    assert(start.seats(name, at));
    assert(between.members[at].name == start.members[at].name);
    assert(end.members[at].name == between.members[at].name);
    assert(end.history =~= seq![second, first] + start.history);
    let one = messages_frame(seq![first]);
    let two = messages_frame(seq![second]);
    let offer = seq![one, two];
    let had = start.members[at].stream;
    let mid = between.members[at].stream;
    let got = end.members[at].stream;
    assert(offer.drop_last() =~= seq![one]);
    assert(seq![one].drop_last() =~= Seq::<Seq<char>>::empty());
    assert(fed(had, had, Seq::<Seq<char>>::empty()));
    assert(fed(had, mid, seq![one])) by {
        if mid != had {
            assert(mid.drop_last() =~= had);
        }
    }
    assert(fed(had, got, offer)) by {
        if got == mid {
            if mid == had {
                assert(fed(had, got, seq![one]));
            }
        } else {
            assert(got.drop_last() =~= mid);
        }
    }
    if mid == had.push(one) && got == mid.push(two) {
        assert(got =~= had + offer);
    }
}

/// The rooms that a run of broadcasts leads through: each step of `rooms` is the
/// broadcast, by `senders[k]`, of `messages[k]`.
pub open spec fn broadcast_run(rooms: Seq<RoomView>, senders: Seq<Seq<char>>, messages: Seq<ChatMessageView>) -> bool {
    &&& rooms.len() == messages.len() + 1
    &&& senders.len() == messages.len()
    &&& forall|k: int|
        0 <= k < messages.len() ==> (#[trigger] rooms[k]).broadcast(rooms[k + 1], senders[k], messages[k])
}

/// `messages` with the last one first.
pub open spec fn newest_first(messages: Seq<ChatMessageView>) -> Seq<ChatMessageView> {
    Seq::new(messages.len(), |k: int| messages[messages.len() - 1 - k])
}

/// The history holds exactly the messages whose broadcast was done, the newest first, on
/// top of what it held before.
pub proof fn law_history_is_newest_first(
    rooms: Seq<RoomView>,
    senders: Seq<Seq<char>>,
    messages: Seq<ChatMessageView>,
)
    requires
        broadcast_run(rooms, senders, messages),
    ensures
        rooms.last().history == newest_first(messages) + rooms[0].history,
    decreases messages.len(),
{
    if messages.len() == 0 {
        assert(newest_first(messages) + rooms[0].history =~= rooms[0].history);
    } else {
        let n = messages.len() as int;
        assert forall|k: int| 0 <= k < n - 1 implies (#[trigger] rooms.drop_last()[k]).broadcast(
            rooms.drop_last()[k + 1],
            senders.drop_last()[k],
            messages.drop_last()[k],
        ) by {
            assert(rooms[k].broadcast(rooms[k + 1], senders[k], messages[k]));
        }
        law_history_is_newest_first(rooms.drop_last(), senders.drop_last(), messages.drop_last());
        assert(rooms[n - 1].broadcast(rooms[n], senders[n - 1], messages[n - 1]));
        assert(rooms.drop_last().last() == rooms[n - 1]);
        assert(rooms.drop_last()[0] == rooms[0]);
        assert(rooms.last().history =~= newest_first(messages) + rooms[0].history);
    }
}

/// What the room called `name` has said so far; nothing where there is no such room yet.
pub open spec fn said_in(chats: ChatsView, name: Seq<char>) -> Seq<ChatMessageView> {
    if chats.has(name) {
        chats.room(name).history
    } else {
        Seq::empty()
    }
}

/// A connection that is let in is shown the history as it stood when it came, as one
/// frame and before anything else: its channel, now with the room, holds what it held and
/// behind that, unless it was closed, that one frame. Coming in changes nothing of what was
/// said.
pub proof fn law_joiner_is_shown_the_history(
    session: SessionView,
    chats: ChatsView,
    after: SessionView,
    chats_after: ChatsView,
)
    requires
        chats.wf(),
        session.state == SessionState::Connecting,
        session.held is Some,
        !chats.taken(session.chat_name, session.username),
        session.opened(chats, after, chats_after),
    ensures
        after.state == SessionState::Relaying,
        chats_after.taken(session.chat_name, session.username),
        said_in(chats_after, session.chat_name) == said_in(chats, session.chat_name),
        ({
            let stream = chats_after.room(session.chat_name).stream(session.username);
            let frame = messages_frame(said_in(chats, session.chat_name));
            stream == session.held->Some_0 || stream == session.held->Some_0.push(frame)
        }),
{
    let name = session.chat_name;
    let user = session.username;
    let held = session.held->Some_0;
    let entered = chats.insert_chat(name, user, held);
    lemma_inserted(chats, name, user, held);
    let opened = chats.get_or_create(name);
    if !chats.has(name) {
        assert(opened.holds(name, chats.rooms.len() as int));
    }
    let before_at = opened.place(name);
    assert(opened.holds(name, before_at));
    let before = opened.rooms[before_at];
    if !chats.has(name) {
        assert forall|i: int, j: int| 0 <= i < j < opened.rooms.len() implies opened.rooms[i].name
            != opened.rooms[j].name by {
            if j == chats.rooms.len() {
                assert(!chats.holds(name, i));
            }
        }
        lemma_place_is(opened, name, chats.rooms.len() as int);
        if before.has(user) {
            assert(before.seats(user, before.seat(user)));
        }
    }
    assert(!before.has(user));
    assert(before.history == said_in(chats, name));
    lemma_entered(before, user, held);
    assert(entered == opened.put(before_at, before.enter(user, held)));
    assert(entered.holds(name, before_at));
    lemma_place_is(entered, name, before_at);
    let at = entered.place(name);
    let room = entered.rooms[at];
    let last = room.members.len() - 1;
    assert(room.seats(user, last));
    lemma_seat_is(room, user, last);
    if chats_after != entered {
        let shown = room.handed(last, messages_frame(room.history));
        assert(chats_after == entered.put(at, shown));
        assert(chats_after.holds(name, at));
        assert forall|i: int, j: int| 0 <= i < j < chats_after.rooms.len() implies chats_after.rooms[i].name
            != chats_after.rooms[j].name by {
            assert(chats_after.rooms[i].name == entered.rooms[i].name);
            assert(chats_after.rooms[j].name == entered.rooms[j].name);
        }
        assert forall|i: int, j: int| 0 <= i < j < shown.members.len() implies shown.members[i].name
            != shown.members[j].name by {
            assert(shown.members[i].name == room.members[i].name);
            assert(shown.members[j].name == room.members[j].name);
        }
        assert forall|i: int| 0 <= i < chats_after.rooms.len() implies (#[trigger] chats_after.rooms[i]).wf() by {
            if i != at {
                assert(entered.rooms[i].wf());
            }
        }
        lemma_place_is(chats_after, name, at);
        assert(shown.seats(user, last));
        lemma_seat_is(shown, user, last);
    }
}

/// Putting a room of the same name and well formed in its place keeps the registry well
/// formed, and every name where it stood.
pub proof fn lemma_put_keeps_places(chats: ChatsView, at: int, room: crate::chat::room::RoomView, name: Seq<char>)
    requires
        chats.wf(),
        0 <= at < chats.rooms.len(),
        room.wf(),
        room.name == chats.rooms[at].name,
    ensures
        chats.put(at, room).wf(),
        chats.put(at, room).has(name) <==> chats.has(name),
        chats.has(name) ==> chats.put(at, room).place(name) == chats.place(name),
{
    let after = chats.put(at, room);
    assert forall|i: int, j: int| 0 <= i < j < after.rooms.len() implies after.rooms[i].name
        != after.rooms[j].name by {
        assert(after.rooms[i].name == chats.rooms[i].name);
        assert(after.rooms[j].name == chats.rooms[j].name);
    }
    assert forall|i: int| 0 <= i < after.rooms.len() implies (#[trigger] after.rooms[i]).wf() by {
        if i != at {
            assert(chats.rooms[i].wf());
        }
    }
    if chats.has(name) {
        let place = chats.place(name);
        assert(chats.holds(name, place));
        assert(after.holds(name, place));
        lemma_place_is(after, name, place);
    }
    if after.has(name) {
        let place = after.place(name);
        assert(after.holds(name, place));
        assert(chats.holds(name, place));
    }
}

/// No room is ever lost: whoever asks to be let in anywhere, under whatever name, every
/// room that was there is there still, in its place, and the registry has not shrunk.
pub proof fn law_rooms_are_never_lost(
    chats: ChatsView,
    room: Seq<char>,
    username: Seq<char>,
    stream: Seq<Seq<char>>,
    other: Seq<char>,
)
    requires
        chats.wf(),
        chats.has(other),
    ensures
        chats.insert_chat(room, username, stream).rooms.len() >= chats.rooms.len(),
        chats.insert_chat(room, username, stream).has(other),
        chats.insert_chat(room, username, stream).place(other) == chats.place(other),
        chats.get_or_create(room).has(other),
        chats.get_or_create(room).place(other) == chats.place(other),
{
    let opened = chats.get_or_create(room);
    let place = chats.place(other);
    assert(chats.holds(other, place));
    if !chats.has(room) {
        assert forall|i: int, j: int| 0 <= i < j < opened.rooms.len() implies opened.rooms[i].name
            != opened.rooms[j].name by {
            if j == chats.rooms.len() {
                assert(!chats.holds(room, i));
            }
        }
        assert(opened.holds(room, chats.rooms.len() as int));
    }
    assert(opened.wf());
    assert(opened.holds(other, place));
    lemma_place_is(opened, other, place);
    if !chats.taken(room, username) {
        lemma_inserted(chats, room, username, stream);
        let after = chats.insert_chat(room, username, stream);
        assert(after.holds(other, place)) by {
            let at = opened.place(room);
            assert(opened.holds(room, at));
        }
        lemma_place_is(after, other, place);
    }
}

/// A session that relays holds its name in its room for as long as its frames can be
/// read: a frame that is broadcast leaves everybody where they are.
pub proof fn law_relaying_session_stays_in(
    session: SessionView,
    chats: ChatsView,
    frame: Frame,
    after: SessionView,
    chats_after: ChatsView,
    name: Seq<char>,
)
    requires
        chats.wf(),
        session.state == SessionState::Relaying,
        chats.has(session.chat_name),
        reading(frame) is Ok,
        session.received(chats, frame, after, chats_after),
    ensures
        after.state == SessionState::Relaying,
        chats_after.wf(),
        chats_after.taken(session.chat_name, name) <==> chats.taken(session.chat_name, name),
{
    let at = chats.place(session.chat_name);
    assert(chats.holds(session.chat_name, at));
    let before = chats.rooms[at];
    let room = chats_after.rooms[at];
    assert(before.wf());
    lemma_broadcast_keeps_seats(
        before,
        room,
        session.username,
        crate::chat::room::spoken(session.username, reading(frame)->Ok_0),
        name,
    );
    lemma_put_keeps_places(chats, at, room, session.chat_name);
}

/// A session that ends is out of its room at once, whether its frames ran out or one of
/// them could not be read; everybody else stays. So the members of a room are at every
/// moment the sessions that relay in it.
pub proof fn law_ended_session_is_out(
    session: SessionView,
    chats: ChatsView,
    frame: Frame,
    after: SessionView,
    chats_after: ChatsView,
    other: Seq<char>,
)
    requires
        chats.wf(),
        session.state == SessionState::Relaying,
        chats.has(session.chat_name),
        other != session.username,
        session.finished(chats, after, chats_after) || (reading(frame) is Err && session.received(
            chats,
            frame,
            after,
            chats_after,
        )),
    ensures
        after.state == SessionState::Closed,
        chats_after.wf(),
        !chats_after.taken(session.chat_name, session.username),
        chats_after.taken(session.chat_name, other) <==> chats.taken(session.chat_name, other),
        chats_after.room(session.chat_name).history == chats.room(session.chat_name).history,
{
    let at = chats.place(session.chat_name);
    assert(chats.holds(session.chat_name, at));
    let before = chats.rooms[at];
    assert(before.wf());
    lemma_left_is_out(before, session.username);
    assert(chats_after == chats.put(at, before.leave(session.username)));
    lemma_put_keeps_places(chats, at, before.leave(session.username), session.chat_name);
}

} // verus!
