//! What the server does with each frame read from a client's WebSocket.
use vstd::prelude::*;
use vstd::utf8::{decode_utf8, valid_utf8};
use crate::message::{Message, error_reply, error_response};

verus! {

/// Milliseconds without any frame after which a client connection is closed.
pub const IDLE_TIMEOUT_MS: u64 = 60000;

/// A WebSocket frame as read from a client.
#[derive(Debug)]
pub enum WsFrame {
    Text(String),
    Binary(Vec<u8>),
    Ping,
    Pong,
    Close,
    /// A raw frame of any other kind.
    Other,
}

/// What to do with a frame.
#[derive(Debug)]
pub enum FrameStep {
    /// Answer the close with a close and end the connection.
    Close,
    /// Nothing to answer.
    Skip,
    /// Answer with this response.
    Reply(Message),
    /// Parse this text as a message.
    Payload(String),
}

/// Text carried by a frame: text frames as they are, binary frames when
/// they are UTF-8.
pub open spec fn frame_text(f: WsFrame) -> Option<Seq<char>> {
    match f {
        WsFrame::Text(t) => Some(t@),
        WsFrame::Binary(b) => if valid_utf8(b@) { Some(decode_utf8(b@)) } else { None },
        _ => None,
    }
}

/// The text of bytes, when they are UTF-8.
#[verifier::external_body]
fn utf8_to_string(bytes: Vec<u8>) -> (r: Option<String>)
    ensures
        r is Some <==> valid_utf8(bytes@),
        r matches Some(s) ==> s@ == decode_utf8(bytes@),
{
    String::from_utf8(bytes).ok()
}

/// The text carried by a data frame.
pub fn parse_message_from_ws(frame: WsFrame) -> (r: Option<String>)
    ensures
        match r {
            Some(s) => frame_text(frame) == Some(s@),
            None => frame_text(frame) is None,
        },
{
    match frame {
        WsFrame::Text(text) => Some(text),
        WsFrame::Binary(data) => utf8_to_string(data),
        _ => None,
    }
}

/// Decides what to do with a frame read from a client.
pub fn next_step(frame: WsFrame) -> (r: FrameStep)
    ensures
        frame is Close ==> r is Close,
        (frame is Ping || frame is Pong) ==> r is Skip,
        !(frame is Close || frame is Ping || frame is Pong) ==> match frame_text(frame) {
            Some(t) => r matches FrameStep::Payload(s) && s@ == t,
            None => r matches FrameStep::Reply(m) && m@ == error_reply(400, "Invalid message payload"@),
        },
{
    match frame {
        WsFrame::Close => FrameStep::Close,
        WsFrame::Ping => FrameStep::Skip,
        WsFrame::Pong => FrameStep::Skip,
        other => match parse_message_from_ws(other) {
            Some(text) => FrameStep::Payload(text),
            None => FrameStep::Reply(error_response(400, "Invalid message payload")),
        },
    }
}

/// The answer to a payload that is not a well-formed message.
pub fn invalid_json() -> (r: Message)
    ensures
        r@ == error_reply(400, "Invalid JSON format"@),
{
    error_response(400, "Invalid JSON format")
}

/// Whether a connection whose last frame came at `last` is idle at `now`.
pub fn idle_timeout_reached(now: u64, last: u64) -> (r: bool)
    ensures
        r == (now >= last && now - last > IDLE_TIMEOUT_MS),
{
    now >= last && now - last > IDLE_TIMEOUT_MS
}

} // verus!
