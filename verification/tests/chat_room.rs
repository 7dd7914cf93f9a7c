use lab_services::chat::error::ChatError;
use lab_services::chat::message::{ChatMessage, Frame, Pagination};
use lab_services::chat::room::Chat;
use tokio::sync::mpsc::error::TryRecvError;
use tokio::sync::mpsc::unbounded_channel;

fn whole() -> Pagination {
    Pagination { take: None, offset: None }
}

fn said(body: &str) -> Frame {
    Frame::Text(format!("{{\"text\":\"{}\"}}", body))
}

#[test]
fn new_room_is_empty() {
    let room = Chat::new("general".to_string());
    assert_eq!(room.name(), "general");
    assert!(room.usernames().is_empty());
    assert!(room.snapshot_history(&whole()).is_empty());
}

#[test]
fn distinct_names_are_both_let_in() {
    let mut room = Chat::new("r".to_string());
    let (a_tx, _a_rx) = unbounded_channel::<String>();
    let (b_tx, _b_rx) = unbounded_channel::<String>();
    assert!(room.connect_user("n1".to_string(), a_tx).is_ok());
    assert!(room.connect_user("n2".to_string(), b_tx).is_ok());
    assert_eq!(room.usernames(), vec!["n1".to_string(), "n2".to_string()]);
    assert_eq!(room.position(&"n1".to_string()), Some(0));
    assert_eq!(room.position(&"n2".to_string()), Some(1));
}

#[test]
fn held_name_is_refused_and_nothing_changes() {
    let mut room = Chat::new("lobby".to_string());
    let (first_tx, mut first_rx) = unbounded_channel::<String>();
    assert!(room.connect_user("ann".to_string(), first_tx).is_ok());
    room.broadcast(&"ann".to_string(), ChatMessage::new("ann".to_string(), "one".to_string()));

    let (second_tx, mut second_rx) = unbounded_channel::<String>();
    let refused = room.connect_user("ann".to_string(), second_tx);
    let (error, back) = refused.unwrap_err();
    assert_eq!(error, ChatError::UsernameTaken("lobby".to_string()));
    assert_eq!(room.usernames(), vec!["ann".to_string()]);
    let history = room.snapshot_history(&whole());
    assert_eq!(history, vec![ChatMessage::new("ann".to_string(), "one".to_string())]);

    // The channel that came back is the second one, unused; the first is still the member's.
    assert_eq!(second_rx.try_recv(), Err(TryRecvError::Empty));
    let mut elsewhere = Chat::new("elsewhere".to_string());
    assert!(elsewhere.connect_user("ann".to_string(), back).is_ok());
    elsewhere.broadcast(&"eve".to_string(), ChatMessage::new("eve".to_string(), "probe".to_string()));
    assert_eq!(second_rx.try_recv(), Ok("[{\"author\":\"eve\",\"text\":\"probe\"}]".to_string()));
    assert_eq!(first_rx.try_recv(), Err(TryRecvError::Empty));
    let (other_tx, _other_rx) = unbounded_channel::<String>();
    assert!(room.connect_user("bob".to_string(), other_tx).is_ok());
    room.broadcast(&"bob".to_string(), ChatMessage::new("bob".to_string(), "two".to_string()));
    assert_eq!(first_rx.try_recv(), Ok("[{\"author\":\"bob\",\"text\":\"two\"}]".to_string()));
}

#[test]
fn leaving_twice_is_leaving_once() {
    let mut room = Chat::new("r".to_string());
    let (a_tx, _a_rx) = unbounded_channel::<String>();
    let (b_tx, _b_rx) = unbounded_channel::<String>();
    room.connect_user("a".to_string(), a_tx).unwrap();
    room.connect_user("b".to_string(), b_tx).unwrap();
    assert!(room.disconnect_user(&"a".to_string()).is_some());
    assert_eq!(room.usernames(), vec!["b".to_string()]);
    assert!(room.disconnect_user(&"a".to_string()).is_none());
    assert_eq!(room.usernames(), vec!["b".to_string()]);
}

#[test]
fn leaving_an_unknown_name_changes_nothing() {
    let mut room = Chat::new("r".to_string());
    let (a_tx, _a_rx) = unbounded_channel::<String>();
    room.connect_user("a".to_string(), a_tx).unwrap();
    assert!(room.disconnect_user(&"nobody".to_string()).is_none());
    assert_eq!(room.usernames(), vec!["a".to_string()]);
}

#[test]
fn broadcasts_arrive_in_order_and_history_is_newest_first() {
    let mut room = Chat::new("r".to_string());
    let (a_tx, mut a_rx) = unbounded_channel::<String>();
    let (b_tx, mut b_rx) = unbounded_channel::<String>();
    let (c_tx, mut c_rx) = unbounded_channel::<String>();
    room.connect_user("a".to_string(), a_tx).unwrap();
    room.connect_user("b".to_string(), b_tx).unwrap();
    room.connect_user("c".to_string(), c_tx).unwrap();
    room.broadcast(&"a".to_string(), ChatMessage::new("a".to_string(), "m1".to_string()));
    room.broadcast(&"a".to_string(), ChatMessage::new("a".to_string(), "m2".to_string()));
    for rx in [&mut b_rx, &mut c_rx] {
        assert_eq!(rx.try_recv(), Ok("[{\"author\":\"a\",\"text\":\"m1\"}]".to_string()));
        assert_eq!(rx.try_recv(), Ok("[{\"author\":\"a\",\"text\":\"m2\"}]".to_string()));
        assert_eq!(rx.try_recv(), Err(TryRecvError::Empty));
    }
    assert_eq!(a_rx.try_recv(), Err(TryRecvError::Empty));
    let history = room.snapshot_history(&whole());
    assert_eq!(
        history,
        vec![
            ChatMessage::new("a".to_string(), "m2".to_string()),
            ChatMessage::new("a".to_string(), "m1".to_string()),
        ]
    );
}

#[test]
fn sender_is_never_handed_its_own_message() {
    let mut room = Chat::new("r".to_string());
    let (tx, mut rx) = unbounded_channel::<String>();
    room.connect_user("solo".to_string(), tx).unwrap();
    room.broadcast(&"solo".to_string(), ChatMessage::new("solo".to_string(), "echo?".to_string()));
    assert_eq!(rx.try_recv(), Err(TryRecvError::Empty));
    assert_eq!(room.snapshot_history(&whole()).len(), 1);
}

#[test]
fn closed_channel_is_passed_over_in_silence() {
    let mut room = Chat::new("r".to_string());
    let (a_tx, _a_rx) = unbounded_channel::<String>();
    let (gone_tx, gone_rx) = unbounded_channel::<String>();
    let (c_tx, mut c_rx) = unbounded_channel::<String>();
    room.connect_user("a".to_string(), a_tx).unwrap();
    room.connect_user("gone".to_string(), gone_tx).unwrap();
    room.connect_user("c".to_string(), c_tx).unwrap();
    drop(gone_rx);
    assert_eq!(room.relay(&"a".to_string(), &said("still here")), Ok(()));
    assert_eq!(c_rx.try_recv(), Ok("[{\"author\":\"a\",\"text\":\"still here\"}]".to_string()));
    // The member behind the closed channel stays until its own session leaves.
    assert_eq!(room.usernames(), vec!["a".to_string(), "gone".to_string(), "c".to_string()]);
}

#[test]
fn start_messages_carry_the_whole_history_whatever_the_page() {
    let mut room = Chat::new("r".to_string());
    room.broadcast(&"x".to_string(), ChatMessage::new("x".to_string(), "old".to_string()));
    room.broadcast(&"y".to_string(), ChatMessage::new("y".to_string(), "new".to_string()));
    let (tx, mut rx) = unbounded_channel::<String>();
    room.connect_user("late".to_string(), tx).unwrap();
    let page = Pagination { take: Some(1), offset: Some(1) };
    assert!(room.get_start_messages(&"late".to_string(), page));
    assert_eq!(
        rx.try_recv(),
        Ok("[{\"author\":\"y\",\"text\":\"new\"},{\"author\":\"x\",\"text\":\"old\"}]".to_string())
    );
    assert_eq!(room.snapshot_history(&page).len(), 2);
}

#[test]
fn start_messages_for_a_stranger_hand_nothing_over() {
    let mut room = Chat::new("r".to_string());
    assert!(!room.get_start_messages(&"nobody".to_string(), whole()));
}

#[test]
fn start_messages_into_a_closed_channel_are_not_taken() {
    let mut room = Chat::new("r".to_string());
    let (tx, rx) = unbounded_channel::<String>();
    room.connect_user("a".to_string(), tx).unwrap();
    drop(rx);
    assert!(!room.get_start_messages(&"a".to_string(), whole()));
}

#[test]
fn relay_reports_each_kind_of_bad_frame() {
    let mut room = Chat::new("r".to_string());
    let (tx, _rx) = unbounded_channel::<String>();
    room.connect_user("a".to_string(), tx).unwrap();
    let name = "a".to_string();
    assert_eq!(room.relay(&name, &Frame::NotText), Err(ChatError::InvalidMessage));
    assert_eq!(room.relay(&name, &Frame::Failed), Err(ChatError::InternalError));
    assert_eq!(room.relay(&name, &Frame::Text("not json".to_string())), Err(ChatError::InvalidMessageBody));
    assert_eq!(room.relay(&name, &Frame::Text("{\"text\":5}".to_string())), Err(ChatError::InvalidMessageBody));
    assert_eq!(room.relay(&name, &Frame::Text("{\"txt\":\"x\"}".to_string())), Err(ChatError::InvalidMessageBody));
    assert_eq!(room.relay(&name, &Frame::Text("[\"x\"]".to_string())), Err(ChatError::InvalidMessageBody));
    assert_eq!(room.relay(&name, &Frame::Text("\"x\"".to_string())), Err(ChatError::InvalidMessageBody));
    assert!(room.snapshot_history(&whole()).is_empty());
    assert_eq!(room.relay(&name, &Frame::Text("{\"text\":\"ok\",\"more\":1}".to_string())), Ok(()));
    assert_eq!(room.snapshot_history(&whole()), vec![ChatMessage::new("a".to_string(), "ok".to_string())]);
}

#[test]
fn send_messages_stops_at_the_first_bad_frame() {
    let mut room = Chat::new("r".to_string());
    let (a_tx, mut a_rx) = unbounded_channel::<String>();
    let (b_tx, mut b_rx) = unbounded_channel::<String>();
    room.connect_user("a".to_string(), a_tx).unwrap();
    room.connect_user("b".to_string(), b_tx).unwrap();
    let frames = vec![said("one"), said("two"), Frame::NotText, said("three")];
    assert_eq!(room.send_messages(&"a".to_string(), frames), Err(ChatError::InvalidMessage));
    assert_eq!(b_rx.try_recv(), Ok("[{\"author\":\"a\",\"text\":\"one\"}]".to_string()));
    assert_eq!(b_rx.try_recv(), Ok("[{\"author\":\"a\",\"text\":\"two\"}]".to_string()));
    assert_eq!(b_rx.try_recv(), Err(TryRecvError::Empty));
    assert_eq!(a_rx.try_recv(), Err(TryRecvError::Empty));
    assert_eq!(
        room.snapshot_history(&whole()),
        vec![
            ChatMessage::new("a".to_string(), "two".to_string()),
            ChatMessage::new("a".to_string(), "one".to_string()),
        ]
    );
}

#[test]
fn send_messages_ends_well_when_the_frames_end() {
    let mut room = Chat::new("r".to_string());
    assert_eq!(room.send_messages(&"a".to_string(), vec![]), Ok(()));
    assert_eq!(room.send_messages(&"a".to_string(), vec![said("x")]), Ok(()));
    assert_eq!(room.snapshot_history(&whole()).len(), 1);
}
