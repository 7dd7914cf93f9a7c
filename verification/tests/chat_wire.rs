use lab_services::chat::error::ChatError;
use lab_services::chat::message::{ChatMessage, Frame, IncomingMessage};
use lab_services::chat::wire::{
    decode, encode_message, encode_messages, encode_one, message_object, payload, read_frame, receive_message,
};

#[test]
fn message_new_keeps_author_and_text() {
    let message = ChatMessage::new("alice".to_string(), "hi".to_string());
    assert_eq!(message.author(), "alice");
    assert_eq!(message.text(), "hi");
    assert_eq!(message.duplicate(), message);
}

#[test]
fn empty_history_is_an_empty_array() {
    assert_eq!(encode_messages(&vec![]), "[]");
}

#[test]
fn one_message_frame() {
    let message = ChatMessage::new("alice".to_string(), "hi".to_string());
    assert_eq!(encode_message(&message), "{\"author\":\"alice\",\"text\":\"hi\"}");
    assert_eq!(encode_one(&message), "[{\"author\":\"alice\",\"text\":\"hi\"}]");
}

#[test]
fn several_messages_are_separated_by_commas() {
    let messages = vec![
        ChatMessage::new("a".to_string(), "1".to_string()),
        ChatMessage::new("b".to_string(), "2".to_string()),
        ChatMessage::new("c".to_string(), "3".to_string()),
    ];
    assert_eq!(
        encode_messages(&messages),
        "[{\"author\":\"a\",\"text\":\"1\"},{\"author\":\"b\",\"text\":\"2\"},{\"author\":\"c\",\"text\":\"3\"}]"
    );
}

#[test]
fn strings_are_escaped_as_json() {
    let message = ChatMessage::new("a\"b".to_string(), "line\nbreak \\ tab\t".to_string());
    let frame = encode_one(&message);
    assert_eq!(frame, "[{\"author\":\"a\\\"b\",\"text\":\"line\\nbreak \\\\ tab\\t\"}]");
    let parsed: serde_json::Value = serde_json::from_str(&frame).unwrap();
    assert_eq!(parsed[0]["author"].as_str(), Some("a\"b"));
    assert_eq!(parsed[0]["text"].as_str(), Some("line\nbreak \\ tab\t"));
}

#[test]
fn message_object_takes_quoted_strings_as_they_are() {
    assert_eq!(message_object("\"x\"", "\"y\""), "{\"author\":\"x\",\"text\":\"y\"}");
}

#[test]
fn decode_reads_the_text_member() {
    assert_eq!(decode("{\"text\":\"hi\"}"), Ok(IncomingMessage::new("hi".to_string())));
    assert_eq!(decode("  { \"text\" : \"a\\u0041\" }  "), Ok(IncomingMessage::new("aA".to_string())));
    assert_eq!(decode("{\"other\":true,\"text\":\"\"}"), Ok(IncomingMessage::new(String::new())));
    assert_eq!(decode("{\"text\":\"hi\"}").unwrap().into_text(), "hi");
}

#[test]
fn decode_refuses_other_shapes() {
    for body in ["", "{", "{}", "null", "42", "\"text\"", "[]", "{\"text\":null}", "{\"text\":[\"x\"]}", "{\"text\":\"a\"} x"] {
        assert_eq!(decode(body), Err(ChatError::InvalidMessageBody), "{}", body);
    }
}

#[test]
fn payload_of_what_was_found() {
    assert_eq!(payload(Some("x".to_string())), Ok(IncomingMessage::new("x".to_string())));
    assert_eq!(payload(None), Err(ChatError::InvalidMessageBody));
}

#[test]
fn receive_message_tells_frames_apart() {
    let text = Frame::Text("body".to_string());
    assert_eq!(receive_message(&text), Ok(&"body".to_string()));
    assert_eq!(receive_message(&Frame::NotText), Err(ChatError::InvalidMessage));
    assert_eq!(receive_message(&Frame::Failed), Err(ChatError::InternalError));
}

#[test]
fn read_frame_goes_down_to_the_payload() {
    assert_eq!(read_frame(&Frame::Text("{\"text\":\"yo\"}".to_string())), Ok(IncomingMessage::new("yo".to_string())));
    assert_eq!(read_frame(&Frame::Text("yo".to_string())), Err(ChatError::InvalidMessageBody));
    assert_eq!(read_frame(&Frame::NotText), Err(ChatError::InvalidMessage));
    assert_eq!(read_frame(&Frame::Failed), Err(ChatError::InternalError));
}

#[test]
fn error_messages_and_frames() {
    let taken = ChatError::UsernameTaken("general".to_string());
    assert_eq!(taken.message(), "User with name general already exist in this chat");
    assert_eq!(
        taken.to_request_body(),
        "{\"error_message\":\"User with name general already exist in this chat\"}"
    );
    assert_eq!(ChatError::Disconnect.message(), "Failed to send a message");
    assert_eq!(ChatError::Disconnect.to_request_body(), "{\"error_message\":\"Failed to send a message\"}");
    assert_eq!(ChatError::InvalidMessage.to_request_body(), "{\"error_message\":\"Invalid message\"}");
    assert_eq!(ChatError::InvalidMessageBody.to_request_body(), "{\"error_message\":\"Body format is wrong\"}");
    assert_eq!(ChatError::InternalError.to_request_body(), "{\"error_message\":\"Something went wrong\"}");
    assert_eq!(
        ChatError::UsernameTaken("a\"b".to_string()).to_request_body(),
        "{\"error_message\":\"User with name a\\\"b already exist in this chat\"}"
    );
}
