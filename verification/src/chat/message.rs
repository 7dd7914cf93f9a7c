use vstd::prelude::*;

verus! {

/// What a chat message is, seen as plain sequences of characters.
pub struct ChatMessageView {
    pub author: Seq<char>,
    pub text: Seq<char>,
}

/// One message of a room: who wrote it and what it says. Never changed once made.
#[derive(Debug, PartialEq, Eq)]
pub struct ChatMessage {
    author: String,
    text: String,
}

impl View for ChatMessage {
    type V = ChatMessageView;

    closed spec fn view(&self) -> ChatMessageView {
        ChatMessageView { author: self.author@, text: self.text@ }
    }
}

impl ChatMessage {
    /// A message by `username` that says `text`.
    pub fn new(username: String, text: String) -> (message: ChatMessage)
        ensures
            message@.author == username@,
            message@.text == text@,
    {
        ChatMessage { author: username, text }
    }

    /// The display name of the sender.
    pub fn author(&self) -> (author: &String)
        ensures
            author@ == self@.author,
    {
        &self.author
    }

    /// The payload.
    pub fn text(&self) -> (text: &String)
        ensures
            text@ == self@.text,
    {
        &self.text
    }

    /// A second message equal to this one.
    pub fn duplicate(&self) -> (copy: ChatMessage)
        ensures
            copy@ == self@,
    {
        ChatMessage { author: self.author.clone(), text: self.text.clone() }
    }
}

/// The request of a connection for a display name.
#[derive(Debug)]
pub struct User {
    pub username: String,
}

/// A page of history asked for on joining. It is carried along and not applied: a joiner
/// is always shown the whole history.
#[derive(Debug, Clone, Copy)]
pub struct Pagination {
    pub take: Option<u32>,
    pub offset: Option<u32>,
}

/// The payload of an inbound text frame.
#[derive(Debug, PartialEq, Eq)]
pub struct IncomingMessage {
    text: String,
}

impl View for IncomingMessage {
    type V = Seq<char>;

    closed spec fn view(&self) -> Seq<char> {
        self.text@
    }
}

impl IncomingMessage {
    /// The payload that says `text`.
    pub fn new(text: String) -> (incoming: IncomingMessage)
        ensures
            incoming@ == text@,
    {
        IncomingMessage { text }
    }

    /// Gives the text up.
    pub fn into_text(self) -> (text: String)
        ensures
            text@ == self@,
    {
        self.text
    }
}

/// What the transport hands over for one inbound frame.
#[derive(Debug, PartialEq, Eq)]
pub enum Frame {
    /// A text frame with what it holds.
    Text(String),
    /// A frame of another kind: binary, ping, pong or close.
    NotText,
    /// The transport failed while reading.
    Failed,
}

/// The views of a run of messages, in the same order.
pub open spec fn views(messages: Seq<ChatMessage>) -> Seq<ChatMessageView> {
    messages.map_values(|m: ChatMessage| m@)
}

} // verus!
