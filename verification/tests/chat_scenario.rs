use lab_services::chat::error::ChatError;
use lab_services::chat::message::{Frame, Pagination};
use lab_services::chat::registry::Chats;
use lab_services::chat::session::SessionState;
use tokio::sync::mpsc::error::TryRecvError;
use tokio::sync::mpsc::unbounded_channel;

fn page() -> Pagination {
    Pagination { take: None, offset: None }
}

fn text(body: &str) -> Frame {
    Frame::Text(body.to_string())
}

#[test]
fn general_room_walkthrough() {
    let mut chats = Chats::new();

    let (alice_tx, mut alice_rx) = unbounded_channel::<String>();
    let mut alice = chats.join("general".to_string(), "alice".to_string(), page(), alice_tx);
    assert_eq!(alice.state(), SessionState::Relaying);
    assert_eq!(alice_rx.try_recv(), Ok("[]".to_string()));

    let (bob_tx, mut bob_rx) = unbounded_channel::<String>();
    let mut bob = chats.join("general".to_string(), "bob".to_string(), page(), bob_tx);
    assert_eq!(bob.state(), SessionState::Relaying);
    assert_eq!(bob_rx.try_recv(), Ok("[]".to_string()));

    alice.receive(&mut chats, &text("{\"text\":\"hi\"}"));
    assert_eq!(alice.state(), SessionState::Relaying);
    assert_eq!(bob_rx.try_recv(), Ok("[{\"author\":\"alice\",\"text\":\"hi\"}]".to_string()));
    assert_eq!(alice_rx.try_recv(), Err(TryRecvError::Empty));

    bob.finish(&mut chats);
    assert_eq!(bob.state(), SessionState::Closed);
    assert_eq!(bob.error(), &None);
    let (bob2_tx, mut bob2_rx) = unbounded_channel::<String>();
    let bob2 = chats.join("general".to_string(), "bob".to_string(), page(), bob2_tx);
    assert_eq!(bob2.state(), SessionState::Relaying);
    assert_eq!(bob2.error(), &None);
    assert_eq!(bob2_rx.try_recv(), Ok("[{\"author\":\"alice\",\"text\":\"hi\"}]".to_string()));

    let (again_tx, mut again_rx) = unbounded_channel::<String>();
    let again = chats.join("general".to_string(), "alice".to_string(), page(), again_tx);
    assert_eq!(again.state(), SessionState::Closed);
    assert_eq!(again.error(), &Some(ChatError::UsernameTaken("general".to_string())));
    assert_eq!(
        again_rx.try_recv(),
        Ok("{\"error_message\":\"User with name general already exist in this chat\"}".to_string())
    );
    let at = chats.find(&"general".to_string()).unwrap();
    assert_eq!(chats.chat(at).unwrap().usernames(), vec!["alice".to_string(), "bob".to_string()]);
}
