use lab_services::chat::error::ChatError;
use lab_services::chat::message::{ChatMessage, Frame, Pagination, User};
use lab_services::chat::registry::Chats;
use lab_services::chat::session::{Session, SessionState};
use tokio::sync::mpsc::error::TryRecvError;
use tokio::sync::mpsc::unbounded_channel;

fn whole() -> Pagination {
    Pagination { take: None, offset: None }
}

fn names(chats: &Chats, room: &str) -> Vec<String> {
    let at = chats.find(&room.to_string()).unwrap();
    chats.chat(at).unwrap().usernames()
}

fn history(chats: &Chats, room: &str) -> Vec<ChatMessage> {
    let at = chats.find(&room.to_string()).unwrap();
    chats.chat(at).unwrap().snapshot_history(&whole())
}

#[test]
fn registry_starts_without_rooms() {
    let chats = Chats::default();
    assert_eq!(chats.len(), 0);
    assert_eq!(chats.find(&"general".to_string()), None);
    assert!(chats.chat(0).is_none());
    assert_eq!(Chats::new().len(), 0);
}

#[test]
fn get_or_create_makes_a_room_once() {
    let mut chats = Chats::new();
    let first = chats.get_or_create("a".to_string());
    let second = chats.get_or_create("b".to_string());
    let again = chats.get_or_create("a".to_string());
    assert_eq!((first, second, again), (0, 1, 0));
    assert_eq!(chats.len(), 2);
    assert_eq!(chats.chat(0).unwrap().name(), "a");
    assert_eq!(chats.chat(1).unwrap().name(), "b");
    assert_eq!(chats.locate(7, &"b".to_string()), Some(1));
    assert_eq!(chats.locate(1, &"b".to_string()), Some(1));
    assert_eq!(chats.locate(0, &"zzz".to_string()), None);
}

#[test]
fn insert_chat_checks_and_enters_in_one_step() {
    let mut chats = Chats::new();
    let (a_tx, _a_rx) = unbounded_channel::<String>();
    let (b_tx, _b_rx) = unbounded_channel::<String>();
    let (c_tx, _c_rx) = unbounded_channel::<String>();
    assert_eq!(chats.insert_chat("r".to_string(), "n1".to_string(), a_tx).ok(), Some(0));
    assert_eq!(chats.insert_chat("r".to_string(), "n2".to_string(), b_tx).ok(), Some(0));
    let refused = chats.insert_chat("r".to_string(), "n1".to_string(), c_tx);
    assert_eq!(refused.err().map(|(error, _)| error), Some(ChatError::UsernameTaken("r".to_string())));
    assert_eq!(names(&chats, "r"), vec!["n1".to_string(), "n2".to_string()]);
    assert_eq!(chats.len(), 1);
}

#[test]
fn same_name_in_two_rooms_is_fine() {
    let mut chats = Chats::new();
    let (a_tx, mut a_rx) = unbounded_channel::<String>();
    let (b_tx, mut b_rx) = unbounded_channel::<String>();
    let mut one = chats.join("one".to_string(), "sam".to_string(), whole(), a_tx);
    let two = chats.join("two".to_string(), "sam".to_string(), whole(), b_tx);
    assert_eq!(one.state(), SessionState::Relaying);
    assert_eq!(two.state(), SessionState::Relaying);
    assert_eq!(a_rx.try_recv(), Ok("[]".to_string()));
    assert_eq!(b_rx.try_recv(), Ok("[]".to_string()));
    one.receive(&mut chats, &Frame::Text("{\"text\":\"only in one\"}".to_string()));
    assert_eq!(b_rx.try_recv(), Err(TryRecvError::Empty));
    assert_eq!(history(&chats, "one").len(), 1);
    assert!(history(&chats, "two").is_empty());
}

#[test]
fn joiner_is_shown_what_was_said_before_and_nothing_later() {
    let mut chats = Chats::new();
    let (a_tx, _a_rx) = unbounded_channel::<String>();
    let mut a = chats.join("r".to_string(), "a".to_string(), whole(), a_tx);
    a.receive(&mut chats, &Frame::Text("{\"text\":\"first\"}".to_string()));
    a.receive(&mut chats, &Frame::Text("{\"text\":\"second\"}".to_string()));
    let (b_tx, mut b_rx) = unbounded_channel::<String>();
    let _b = chats.join("r".to_string(), "b".to_string(), Pagination { take: Some(1), offset: None }, b_tx);
    a.receive(&mut chats, &Frame::Text("{\"text\":\"third\"}".to_string()));
    assert_eq!(
        b_rx.try_recv(),
        Ok("[{\"author\":\"a\",\"text\":\"second\"},{\"author\":\"a\",\"text\":\"first\"}]".to_string())
    );
    assert_eq!(b_rx.try_recv(), Ok("[{\"author\":\"a\",\"text\":\"third\"}]".to_string()));
    assert_eq!(b_rx.try_recv(), Err(TryRecvError::Empty));
}

#[test]
fn bad_frame_ends_the_session_leave_first_then_the_error_frame() {
    let mut chats = Chats::new();
    let (a_tx, mut a_rx) = unbounded_channel::<String>();
    let (b_tx, mut b_rx) = unbounded_channel::<String>();
    let mut a = chats.join("r".to_string(), "a".to_string(), whole(), a_tx);
    let _b = chats.join("r".to_string(), "b".to_string(), whole(), b_tx);
    assert_eq!(a_rx.try_recv(), Ok("[]".to_string()));
    assert_eq!(b_rx.try_recv(), Ok("[]".to_string()));
    a.receive(&mut chats, &Frame::Text("oops".to_string()));
    assert_eq!(a.state(), SessionState::Closed);
    assert_eq!(a.error(), &Some(ChatError::InvalidMessageBody));
    assert_eq!(names(&chats, "r"), vec!["b".to_string()]);
    assert_eq!(a_rx.try_recv(), Ok("{\"error_message\":\"Body format is wrong\"}".to_string()));
    assert_eq!(a_rx.try_recv(), Err(TryRecvError::Empty));
    drop(a);
    assert_eq!(a_rx.try_recv(), Err(TryRecvError::Disconnected));
    assert_eq!(b_rx.try_recv(), Err(TryRecvError::Empty));
    assert!(history(&chats, "r").is_empty());
}

#[test]
fn closed_session_takes_nothing_more_in() {
    let mut chats = Chats::new();
    let (a_tx, _a_rx) = unbounded_channel::<String>();
    let (b_tx, mut b_rx) = unbounded_channel::<String>();
    let mut a = chats.join("r".to_string(), "a".to_string(), whole(), a_tx);
    let _b = chats.join("r".to_string(), "b".to_string(), whole(), b_tx);
    assert_eq!(b_rx.try_recv(), Ok("[]".to_string()));
    a.receive(&mut chats, &Frame::NotText);
    a.receive(&mut chats, &Frame::Text("{\"text\":\"late\"}".to_string()));
    assert!(history(&chats, "r").is_empty());
    assert_eq!(b_rx.try_recv(), Err(TryRecvError::Empty));
}

#[test]
fn frame_that_is_not_text_ends_the_session() {
    let mut chats = Chats::new();
    let (tx, mut rx) = unbounded_channel::<String>();
    let mut session = chats.join("r".to_string(), "a".to_string(), whole(), tx);
    rx.try_recv().unwrap();
    session.receive(&mut chats, &Frame::NotText);
    assert_eq!(session.state(), SessionState::Closed);
    assert_eq!(session.error(), &Some(ChatError::InvalidMessage));
    assert_eq!(rx.try_recv(), Ok("{\"error_message\":\"Invalid message\"}".to_string()));
    assert!(names(&chats, "r").is_empty());
}

#[test]
fn transport_failure_ends_the_session_and_frees_the_name() {
    let mut chats = Chats::new();
    let (tx, rx) = unbounded_channel::<String>();
    let mut session = chats.join("r".to_string(), "a".to_string(), whole(), tx);
    drop(rx);
    session.receive(&mut chats, &Frame::Failed);
    assert_eq!(session.state(), SessionState::Closed);
    assert_eq!(session.error(), &Some(ChatError::InternalError));
    assert!(names(&chats, "r").is_empty());
    let (again_tx, mut again_rx) = unbounded_channel::<String>();
    let again = chats.join("r".to_string(), "a".to_string(), whole(), again_tx);
    assert_eq!(again.state(), SessionState::Relaying);
    assert_eq!(again_rx.try_recv(), Ok("[]".to_string()));
}

#[test]
fn clean_end_leaves_without_an_error_frame() {
    let mut chats = Chats::new();
    let (tx, mut rx) = unbounded_channel::<String>();
    let mut session = chats.join("r".to_string(), "a".to_string(), whole(), tx);
    assert_eq!(rx.try_recv(), Ok("[]".to_string()));
    session.finish(&mut chats);
    assert_eq!(session.state(), SessionState::Closed);
    assert_eq!(session.error(), &None);
    assert_eq!(rx.try_recv(), Err(TryRecvError::Empty));
    assert!(names(&chats, "r").is_empty());
    // The room stays, empty, and can be used again.
    assert_eq!(chats.len(), 1);
    session.finish(&mut chats);
    assert_eq!(session.state(), SessionState::Closed);
}

#[test]
fn rejected_session_never_joins_and_never_leaves() {
    let mut chats = Chats::new();
    let (first_tx, mut first_rx) = unbounded_channel::<String>();
    let _first = chats.join("r".to_string(), "dup".to_string(), whole(), first_tx);
    assert_eq!(first_rx.try_recv(), Ok("[]".to_string()));
    let (second_tx, mut second_rx) = unbounded_channel::<String>();
    let mut second = chats.join("r".to_string(), "dup".to_string(), whole(), second_tx);
    assert_eq!(second.state(), SessionState::Closed);
    assert_eq!(second.error(), &Some(ChatError::UsernameTaken("r".to_string())));
    assert_eq!(
        second_rx.try_recv(),
        Ok("{\"error_message\":\"User with name r already exist in this chat\"}".to_string())
    );
    assert_eq!(second_rx.try_recv(), Err(TryRecvError::Empty));
    // Ending the rejected session must not take the first member out.
    second.finish(&mut chats);
    second.receive(&mut chats, &Frame::Failed);
    assert_eq!(names(&chats, "r"), vec!["dup".to_string()]);
    assert_eq!(first_rx.try_recv(), Err(TryRecvError::Empty));
}

#[test]
fn session_is_connecting_until_opened() {
    let mut chats = Chats::new();
    let (tx, mut rx) = unbounded_channel::<String>();
    let user = User { username: "new".to_string() };
    let mut session = Session::new("r".to_string(), user.username, whole(), tx);
    assert_eq!(session.state(), SessionState::Connecting);
    session.receive(&mut chats, &Frame::Text("{\"text\":\"too early\"}".to_string()));
    assert_eq!(session.state(), SessionState::Connecting);
    assert_eq!(chats.len(), 0);
    session.open(&mut chats);
    assert_eq!(session.state(), SessionState::Relaying);
    assert_eq!(rx.try_recv(), Ok("[]".to_string()));
    session.open(&mut chats);
    assert_eq!(rx.try_recv(), Err(TryRecvError::Empty));
    assert_eq!(names(&chats, "r"), vec!["new".to_string()]);
}

#[test]
fn connecting_session_that_ends_is_closed() {
    let mut chats = Chats::new();
    let (tx, _rx) = unbounded_channel::<String>();
    let mut session = Session::new("r".to_string(), "a".to_string(), whole(), tx);
    session.finish(&mut chats);
    assert_eq!(session.state(), SessionState::Closed);
    session.open(&mut chats);
    assert_eq!(session.state(), SessionState::Closed);
    assert_eq!(chats.len(), 0);
}

#[test]
fn chat_mut_works_on_the_room_of_the_registry() {
    let mut chats = Chats::new();
    let at = chats.get_or_create("r".to_string());
    chats.chat_mut(at).broadcast(&"x".to_string(), ChatMessage::new("x".to_string(), "m".to_string()));
    assert_eq!(history(&chats, "r"), vec![ChatMessage::new("x".to_string(), "m".to_string())]);
}
