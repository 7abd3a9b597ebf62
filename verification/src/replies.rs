//! Requests to an agent: their payloads, and how the agent's reply is read.
use vstd::prelude::*;
use crate::json::{Json, int_json, json_as_i64, json_get};
use crate::message::{Message, MessageView, Status};
use crate::text::{decimal, push_decimal};

verus! {

/// Why a request to an agent did not give what was asked.
#[derive(Debug)]
pub enum AgentError {
    /// The agent answered with an error.
    Failed { action: String, code: u16, message: String },
    /// The agent's reply is not a response of the expected shape.
    UnexpectedFormat,
    /// The reply lacks the deleted-run count.
    MissingDeletedCount,
}

/// What a reply to `action` means when only its success matters.
pub open spec fn ok_result_matches(action: Seq<char>, reply: MessageView, r: Result<(), AgentError>) -> bool {
    match reply {
        MessageView::Response { status: Status::Success, .. } => r is Ok,
        MessageView::Response { status: Status::Error, code, text, .. } => failed_with(r, action, code, text),
        MessageView::Request { .. } => r matches Err(AgentError::UnexpectedFormat),
    }
}

pub open spec fn failed_with<T>(r: Result<T, AgentError>, action: Seq<char>, code: u16, text: Seq<char>) -> bool {
    r matches Err(AgentError::Failed { action: a, code: c, message: m }) && a@ == action && c == code && m@ == text
}

/// Reads the reply to a request whose success is all that matters.
pub fn expect_ok(action: &str, reply: Message) -> (r: Result<(), AgentError>)
    ensures
        ok_result_matches(action@, reply@, r),
{
    match reply {
        Message::Response { status: Status::Success, .. } => Ok(()),
        Message::Response { status: Status::Error, code, message, .. } => Err(
            AgentError::Failed { action: String::from_str(action), code, message },
        ),
        Message::Request { .. } => Err(AgentError::UnexpectedFormat),
    }
}

/// Reads the reply to a request that returns the payload member `field`;
/// a successful reply whose payload lacks the member gives `Null`.
pub fn expect_field(action: &str, field: &str, reply: Message) -> (r: Result<Json, AgentError>)
    ensures
        match reply@ {
            MessageView::Response { status: Status::Success, data: Some(d), .. } => r == Ok::<Json, AgentError>(
                match json_get(d, field@) {
                    Some(v) => v,
                    None => Json::Null,
                },
            ),
            MessageView::Response { status: Status::Error, code, text, .. } => failed_with(r, action@, code, text),
            _ => r matches Err(AgentError::UnexpectedFormat),
        },
{
    match reply {
        Message::Response { status: Status::Success, data: Some(d), .. } => Ok(d.take_member(field)),
        Message::Response { status: Status::Error, code, message, .. } => Err(
            AgentError::Failed { action: String::from_str(action), code, message },
        ),
        _ => Err(AgentError::UnexpectedFormat),
    }
}

/// Reads the reply to `start-stream`: an error with code 208 means the
/// stream was already joined and counts as success.
pub fn expect_stream_started(reply: Message) -> (r: Result<(), AgentError>)
    ensures
        match reply@ {
            MessageView::Response { status: Status::Success, .. } => r is Ok,
            MessageView::Response { status: Status::Error, code, text, .. } => if code == 208 {
                r is Ok
            } else {
                failed_with(r, "start-stream"@, code, text)
            },
            MessageView::Request { .. } => r matches Err(AgentError::UnexpectedFormat),
        },
{
    match reply {
        Message::Response { status: Status::Success, .. } => Ok(()),
        Message::Response { status: Status::Error, code, message, .. } => if code == 208 {
            Ok(())
        } else {
            Err(AgentError::Failed { action: String::from_str("start-stream"), code, message })
        },
        Message::Request { .. } => Err(AgentError::UnexpectedFormat),
    }
}

/// Reads the reply to `delete-inactive-runs`: the number of runs deleted.
pub fn expect_deleted_count(reply: Message) -> (r: Result<i64, AgentError>)
    ensures
        match reply@ {
            MessageView::Response { status: Status::Success, data: Some(d), .. } => match json_get(d, "deleted_count"@) {
                Some(v) => match json_as_i64(v) {
                    Some(n) => r == Ok::<i64, AgentError>(n),
                    None => r matches Err(AgentError::MissingDeletedCount),
                },
                None => r matches Err(AgentError::MissingDeletedCount),
            },
            MessageView::Response { status: Status::Error, code, text, .. } => failed_with(
                r,
                "delete-inactive-runs"@,
                code,
                text,
            ),
            _ => r matches Err(AgentError::UnexpectedFormat),
        },
{
    match reply {
        Message::Response { status: Status::Success, data: Some(d), .. } => {
            let count = match d.get("deleted_count") {
                Some(v) => v.as_i64(),
                None => None,
            };
            match count {
                Some(n) => Ok(n),
                None => Err(AgentError::MissingDeletedCount),
            }
        },
        Message::Response { status: Status::Error, code, message, .. } => Err(
            AgentError::Failed { action: String::from_str("delete-inactive-runs"), code, message },
        ),
        _ => Err(AgentError::UnexpectedFormat),
    }
}

/// The text describing a failed request.
pub open spec fn error_text(e: AgentError) -> Seq<char> {
    match e {
        AgentError::Failed { action, code, message } => action@ + " failed ["@ + decimal(code as nat)
            + "]: "@ + message@,
        AgentError::UnexpectedFormat => "Unexpected response format"@,
        AgentError::MissingDeletedCount => "Missing deleted_count field"@,
    }
}

impl AgentError {
    /// The text describing the failure.
    pub fn describe(&self) -> (r: String)
        ensures
            r@ == error_text(*self),
    {
        match self {
            AgentError::Failed { action, code, message } => {
                let mut s = String::from_str(action.as_str());
                s.append(" failed [");
                push_decimal(&mut s, *code as u64);
                s.append("]: ");
                s.append(message.as_str());
                s
            },
            AgentError::UnexpectedFormat => String::from_str("Unexpected response format"),
            AgentError::MissingDeletedCount => String::from_str("Missing deleted_count field"),
        }
    }
}

/// The payload `{ key: id }` of requests naming one record.
pub fn id_payload(key: &str, id: i64) -> (r: Json)
    ensures
        r matches Json::Object(e) && e@.len() == 1,
        json_get(r, key@) == Some(int_json(id as int)),
{
    Json::single(key, Json::from_i64(id))
}

} // verus!
