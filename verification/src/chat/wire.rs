use crate::chat::error::ChatError;
use crate::chat::message::{views, ChatMessage, ChatMessageView, Frame, IncomingMessage};
use crate::json::{json_member, json_string, member, quote};
use vstd::prelude::*;
use vstd::string::StringExecFns;

verus! {

/// The object that stands for one message, given its two strings already quoted.
pub open spec fn object_text(author_json: Seq<char>, text_json: Seq<char>) -> Seq<char> {
    "{\"author\":"@ + author_json + ",\"text\":"@ + text_json + "}"@
}

/// The JSON object for one message.
pub open spec fn message_json(message: ChatMessageView) -> Seq<char> {
    object_text(json_string(message.author), json_string(message.text))
}

/// The JSON objects of `messages`, in order, with a comma between neighbours.
pub open spec fn items_json(messages: Seq<ChatMessageView>) -> Seq<char>
    decreases messages.len(),
{
    if messages.len() == 0 {
        Seq::empty()
    } else if messages.len() == 1 {
        message_json(messages[0])
    } else {
        items_json(messages.drop_last()) + ","@ + message_json(messages.last())
    }
}

/// The outbound frame that carries `messages`: a JSON array of message objects.
pub open spec fn messages_frame(messages: Seq<ChatMessageView>) -> Seq<char> {
    "["@ + items_json(messages) + "]"@
}

/// The outbound frame that reports an error: a JSON object with the sentence under
/// `error_message`.
pub open spec fn error_frame(sentence: Seq<char>) -> Seq<char> {
    "{\"error_message\":"@ + json_string(sentence) + "}"@
}

/// Puts two quoted strings into the object that stands for a message.
pub fn message_object(author_json: &str, text_json: &str) -> (object: String)
    ensures
        object@ == object_text(author_json@, text_json@),
{
    let mut object = String::from_str("{\"author\":");
    object.append(author_json);
    object.append(",\"text\":");
    object.append(text_json);
    object.append("}");
    object
}

/// Writes one message as a JSON object.
pub fn encode_message(message: &ChatMessage) -> (object: String)
    ensures
        object@ == message_json(message@),
{
    let author = quote(message.author().as_str());
    let text = quote(message.text().as_str());
    message_object(author.as_str(), text.as_str())
}

/// Writes `messages` as one outbound frame, first message first.
pub fn encode_messages(messages: &Vec<ChatMessage>) -> (frame: String)
    ensures
        frame@ == messages_frame(views(messages@)),
{
    let mut frame = String::from_str("[");
    let ghost all = views(messages@);
    let mut at: usize = 0;
    while at < messages.len()
        invariant
            at <= messages.len(),
            all == views(messages@),
            frame@ == "["@ + items_json(all.take(at as int)),
        decreases messages.len() - at,
    {
        let object = encode_message(&messages[at]);
        proof {
            let before = all.take(at as int);
            let now = all.take(at as int + 1);
            assert(now.drop_last() =~= before);
            assert(now.last() == messages@[at as int]@);
        }
        if at > 0 {
            frame.append(",");
        }
        frame.append(object.as_str());
        at = at + 1;
    }
    proof {
        assert(all.take(at as int) =~= all);
    }
    frame.append("]");
    frame
}

/// The outbound frame of a live broadcast: an array that holds the one message.
pub fn encode_one(message: &ChatMessage) -> (frame: String)
    ensures
        frame@ == messages_frame(seq![message@]),
{
    let object = encode_message(message);
    let mut frame = String::from_str("[");
    frame.append(object.as_str());
    frame.append("]");
    proof {
        assert(items_json(seq![message@]) == message_json(message@));
    }
    frame
}

/// A payload or an error, with the payload seen as its text.
pub open spec fn told(incoming: Result<IncomingMessage, ChatError>) -> Result<Seq<char>, ChatError> {
    match incoming {
        Ok(payload) => Ok(payload@),
        Err(error) => Err(error),
    }
}

/// What a body amounts to, given what stands under `text` in it: that text, or the error
/// for a body of the wrong shape.
pub open spec fn decoded(found: Option<Seq<char>>) -> Result<Seq<char>, ChatError> {
    match found {
        Some(text) => Ok(text),
        None => Err(ChatError::InvalidMessageBody),
    }
}

/// What an inbound frame amounts to: the text to be broadcast, or the error that ends the
/// session.
pub open spec fn reading(frame: Frame) -> Result<Seq<char>, ChatError> {
    match frame {
        Frame::Text(body) => decoded(json_member(body@, "text"@)),
        Frame::NotText => Err(ChatError::InvalidMessage),
        Frame::Failed => Err(ChatError::InternalError),
    }
}

/// Turns what was found under `text` into a payload.
pub fn payload(found: Option<String>) -> (incoming: Result<IncomingMessage, ChatError>)
    ensures
        told(incoming) == decoded(
            match found {
                Some(text) => Some(text@),
                None => None,
            },
        ),
{
    match found {
        Some(text) => Ok(IncomingMessage::new(text)),
        None => Err(ChatError::InvalidMessageBody),
    }
}

/// Decodes the body of an inbound text frame: a JSON object with a string under `text`.
pub fn decode(body: &str) -> (incoming: Result<IncomingMessage, ChatError>)
    ensures
        told(incoming) == decoded(json_member(body@, "text"@)),
{
    payload(member(body, "text"))
}

/// The body of an inbound frame, where the frame is text.
pub fn receive_message(message: &Frame) -> (body: Result<&String, ChatError>)
    ensures
        match *message {
            Frame::Text(text) => body == Ok::<&String, ChatError>(&text),
            Frame::NotText => body == Err::<&String, ChatError>(ChatError::InvalidMessage),
            Frame::Failed => body == Err::<&String, ChatError>(ChatError::InternalError),
        },
{
    match message {
        Frame::Text(text) => Ok(text),
        Frame::NotText => Err(ChatError::InvalidMessage),
        Frame::Failed => Err(ChatError::InternalError),
    }
}

/// Reads an inbound frame down to its payload.
pub fn read_frame(frame: &Frame) -> (incoming: Result<IncomingMessage, ChatError>)
    ensures
        told(incoming) == reading(*frame),
{
    match receive_message(frame) {
        Ok(body) => decode(body.as_str()),
        Err(error) => Err(error),
    }
}

} // verus!
