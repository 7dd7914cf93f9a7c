use crate::chat::wire::error_frame;
use crate::json::quote;
use vstd::prelude::*;
use vstd::string::StringExecFns;

verus! {

/// Why a connection was turned away or cut short.
#[derive(Debug, PartialEq, Eq)]
pub enum ChatError {
    /// The display name is already held in the room whose name is carried.
    UsernameTaken(String),
    /// A frame could not be handed to a connection.
    Disconnect,
    /// The transport under the connection failed.
    InternalError,
    /// An inbound frame was not text.
    InvalidMessage,
    /// An inbound text frame was not a message object.
    InvalidMessageBody,
}

impl ChatError {
    /// The sentence shown to the connection for this error.
    pub open spec fn sentence(self) -> Seq<char> {
        match self {
            ChatError::UsernameTaken(room) => "User with name "@ + room@
                + " already exist in this chat"@,
            ChatError::Disconnect => "Failed to send a message"@,
            ChatError::InternalError => "Something went wrong"@,
            ChatError::InvalidMessage => "Invalid message"@,
            ChatError::InvalidMessageBody => "Body format is wrong"@,
        }
    }

    /// The sentence shown to the connection for this error. A transport failure is not
    /// spelled out to the peer.
    pub fn message(&self) -> (text: String)
        ensures
            text@ == self.sentence(),
    {
        match self {
            ChatError::UsernameTaken(room) => {
                let mut text = String::from_str("User with name ");
                text.append(room.as_str());
                text.append(" already exist in this chat");
                text
            },
            ChatError::Disconnect => String::from_str("Failed to send a message"),
            ChatError::InternalError => String::from_str("Something went wrong"),
            ChatError::InvalidMessage => String::from_str("Invalid message"),
            ChatError::InvalidMessageBody => String::from_str("Body format is wrong"),
        }
    }

    /// The outbound frame that reports this error to the connection.
    pub fn to_request_body(&self) -> (frame: String)
        ensures
            frame@ == error_frame(self.sentence()),
    {
        let sentence = self.message();
        let quoted = quote(sentence.as_str());
        let mut frame = String::from_str("{\"error_message\":");
        frame.append(quoted.as_str());
        frame.append("}");
        frame
    }
}

} // verus!
