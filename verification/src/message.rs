//! The messages exchanged with clients and agents.
use vstd::prelude::*;
use crate::json::Json;

verus! {

/// Outcome carried by a response.
#[derive(Clone, Copy, Debug, PartialEq, Eq, Structural)]
pub enum Status {
    Success,
    Error,
}

/// A request (an action with an optional payload) or a response to one,
/// matched to its request by `id`.
#[derive(Debug)]
pub enum Message {
    Request { id: u64, action: String, data: Option<Json> },
    Response { id: u64, status: Status, code: u16, message: String, data: Option<Json> },
}

/// The abstract content of a message, with its texts as character sequences.
pub enum MessageView {
    Request { id: u64, action: Seq<char>, data: Option<Json> },
    Response { id: u64, status: Status, code: u16, text: Seq<char>, data: Option<Json> },
}

impl View for Message {
    type V = MessageView;

    open spec fn view(&self) -> MessageView {
        match self {
            Message::Request { id, action, data } => MessageView::Request {
                id: *id,
                action: action@,
                data: *data,
            },
            Message::Response { id, status, code, message, data } => MessageView::Response {
                id: *id,
                status: *status,
                code: *code,
                text: message@,
                data: *data,
            },
        }
    }
}

impl MessageView {
    pub open spec fn id(self) -> u64 {
        match self {
            MessageView::Request { id, .. } => id,
            MessageView::Response { id, .. } => id,
        }
    }

    pub open spec fn with_id(self, new_id: u64) -> MessageView {
        match self {
            MessageView::Request { action, data, .. } => MessageView::Request {
                id: new_id,
                action,
                data,
            },
            MessageView::Response { status, code, text, data, .. } => MessageView::Response {
                id: new_id,
                status,
                code,
                text,
                data,
            },
        }
    }
}

/// A response without payload.
pub open spec fn reply(id: u64, status: Status, code: u16, text: Seq<char>) -> MessageView {
    MessageView::Response { id, status, code, text, data: None }
}

/// A response with an optional payload.
pub open spec fn reply_with(id: u64, status: Status, code: u16, text: Seq<char>, data: Option<Json>) -> MessageView {
    MessageView::Response { id, status, code, text, data }
}

/// An error response of the given code, not yet matched to a request.
pub open spec fn error_reply(code: u16, text: Seq<char>) -> MessageView {
    reply(0, Status::Error, code, text)
}

/// A successful response of the given code, not yet matched to a request.
pub open spec fn ok_reply(code: u16, text: Seq<char>, data: Option<Json>) -> MessageView {
    reply_with(0, Status::Success, code, text, data)
}

impl Message {
    /// A response with id 0; the id of the request it answers is set
    /// afterwards with `set_id`.
    pub fn new_response(status: Status, data: Option<Json>, code: u16, message: String) -> (r: Message)
        ensures
            r@ == reply_with(0, status, code, message@, data),
    {
        Message::Response { id: 0, status, code, message, data }
    }

    /// A request.
    pub fn new_request(id: u64, action: String, data: Option<Json>) -> (r: Message)
        ensures
            r@ == (MessageView::Request { id, action: action@, data }),
    {
        Message::Request { id, action, data }
    }

    /// Sets the id of the message.
    pub fn set_id(&mut self, new_id: u64)
        ensures
            final(self)@ == old(self)@.with_id(new_id),
    {
        match self {
            Message::Request { id, .. } => {
                *id = new_id;
            },
            Message::Response { id, .. } => {
                *id = new_id;
            },
        }
    }

    /// The id of the message.
    pub fn id(&self) -> (r: u64)
        ensures
            r == self@.id(),
    {
        match self {
            Message::Request { id, .. } => *id,
            Message::Response { id, .. } => *id,
        }
    }
}

/// An error response with no payload, built from a text.
pub fn error_response(code: u16, text: &str) -> (r: Message)
    ensures
        r@ == error_reply(code, text@),
{
    Message::new_response(Status::Error, None, code, String::from_str(text))
}

/// A successful response, built from a text and an optional payload.
pub fn ok_response(code: u16, text: &str, data: Option<Json>) -> (r: Message)
    ensures
        r@ == ok_reply(code, text@, data),
{
    Message::new_response(Status::Success, data, code, String::from_str(text))
}

} // verus!
