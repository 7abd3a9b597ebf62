//! The decisions of the request handlers: which payloads they accept,
//! and how the outcome of their database or agent work is answered.
//! The work itself (queries, agent requests) is done by the caller
//! between these steps.
use vstd::prelude::*;
use crate::context::ConnectionContext;
use crate::json::{Json, json_as_i64, json_as_text, json_get};
use crate::message::{Message, MessageView, Status, error_reply, error_response, ok_response};
use crate::text::{push_signed_decimal, same_text, signed_decimal};

verus! {

/// A database failure, as far as the answers depend on it.
#[derive(Debug)]
pub enum DbError {
    /// The query that must return a row returned none.
    RowNotFound,
    /// The database refused the statement, with its SQLSTATE code if any.
    Database { code: Option<String> },
    /// Any other failure.
    Other,
}

/// A violated uniqueness constraint (SQLSTATE 23505).
pub open spec fn unique_violation(e: DbError) -> bool {
    e matches DbError::Database { code: Some(c) } && c@ == "23505"@
}

/// Whether a failure is a violated uniqueness constraint.
pub fn is_unique_violation(e: &DbError) -> (r: bool)
    ensures
        r == unique_violation(*e),
{
    match e {
        DbError::Database { code: Some(c) } => same_text(c.as_str(), "23505"),
        _ => false,
    }
}

/// The integer member `key` of a payload.
pub open spec fn member_i64(data: Json, key: Seq<char>) -> Option<i64> {
    match json_get(data, key) {
        Some(v) => json_as_i64(v),
        None => None,
    }
}

/// The text member `key` of a payload.
pub open spec fn member_text(data: Json, key: Seq<char>) -> Option<Seq<char>> {
    match json_get(data, key) {
        Some(v) => json_as_text(v),
        None => None,
    }
}

/// A payload that is an object with the single member `key`, holding `v`.
pub open spec fn single_member(p: Json, key: Seq<char>, v: Json) -> bool {
    p matches Json::Object(e) && e@.len() == 1 && e@[0].0@ == key && e@[0].1 == v
}

/// A successful (200) response with text `text` and payload `{ key: v }`.
pub open spec fn payload_reply(m: MessageView, text: Seq<char>, key: Seq<char>, v: Json) -> bool {
    m matches MessageView::Response { id, status, code, text: t, data: Some(p) } && id == 0
        && status == Status::Success && code == 200 && t == text && single_member(p, key, v)
}

/// The answer to a step that either produced `v`, sent as `{ key: v }`,
/// or failed with `err_code` and `err_text`.
pub open spec fn listing_reply(
    m: MessageView,
    result: Option<Json>,
    key: Seq<char>,
    ok_text: Seq<char>,
    err_code: u16,
    err_text: Seq<char>,
) -> bool {
    match result {
        Some(v) => payload_reply(m, ok_text, key, v),
        None => m == error_reply(err_code, err_text),
    }
}

fn payload_response(text: &str, key: &str, v: Json) -> (r: Message)
    ensures
        payload_reply(r@, text@, key@, v),
{
    ok_response(200, text, Some(Json::single(key, v)))
}

fn listing(result: Option<Json>, key: &str, ok_text: &str, err_code: u16, err_text: &str) -> (r: Message)
    ensures
        listing_reply(r@, result, key@, ok_text@, err_code, err_text@),
{
    match result {
        Some(v) => payload_response(ok_text, key, v),
        None => error_response(err_code, err_text),
    }
}

/// The payload of a request, which the handlers below require.
pub fn require_data(data: Option<Json>) -> (r: Result<Json, Message>)
    ensures
        match data {
            Some(d) => r == Ok::<Json, Message>(d),
            None => r matches Err(m) && m@ == error_reply(400, "Missing data"@),
        },
{
    match data {
        Some(d) => Ok(d),
        None => Err(error_response(400, "Missing data")),
    }
}

/// The integer member `key` of a payload; its absence is answered with
/// 400 and `missing`.
pub fn require_i64(data: &Json, key: &str, missing: &str) -> (r: Result<i64, Message>)
    ensures
        match member_i64(*data, key@) {
            Some(n) => r == Ok::<i64, Message>(n),
            None => r matches Err(m) && m@ == error_reply(400, missing@),
        },
{
    let v = match data.get(key) {
        Some(f) => f.as_i64(),
        None => None,
    };
    match v {
        Some(n) => Ok(n),
        None => Err(error_response(400, missing)),
    }
}

/// The payload of a request addressed to an agent, and the agent's id.
pub open spec fn agent_target_of(data: Option<Json>) -> Result<(Json, i64), MessageView> {
    match data {
        None => Err(error_reply(400, "Missing data"@)),
        Some(d) => match member_i64(d, "agent_id"@) {
            None => Err(error_reply(400, "Missing agent_id"@)),
            Some(a) => Ok((d, a)),
        },
    }
}

pub open spec fn result_matches<T>(r: Result<T, Message>, expected: Result<T, MessageView>) -> bool {
    match expected {
        Ok(v) => r == Ok::<T, Message>(v),
        Err(m) => r matches Err(x) && x@ == m,
    }
}

/// The payload of a request addressed to an agent, and the agent's id
/// (`agent_id`).
pub fn agent_target(data: Option<Json>) -> (r: Result<(Json, i64), Message>)
    ensures
        result_matches(r, agent_target_of(data)),
{
    let d = match require_data(data) {
        Ok(d) => d,
        Err(m) => return Err(m),
    };
    match require_i64(&d, "agent_id", "Missing agent_id") {
        Ok(a) => Ok((d, a)),
        Err(m) => Err(m),
    }
}

/// The answer to a payload that does not have the shape `action` needs.
pub fn invalid_request(action: &str) -> (r: Message)
    ensures
        r@ == error_reply(400, "Invalid "@ + action@ + " request"@),
{
    let mut text = String::from_str("Invalid ");
    text.append(action);
    text.append(" request");
    Message::new_response(Status::Error, None, 400, text)
}

// ---- agents (database) ----

/// Where an agent listens, as stored.
#[derive(Debug)]
pub struct AgentAddress {
    pub ip: String,
    pub port: i32,
}

/// `connect-agent`: the stored address of the agent to connect to, or the
/// answer when it cannot be had. The stored port is cut to 16 bits.
pub fn connect_agent_address(lookup: Result<Option<AgentAddress>, DbError>) -> (r: Result<(String, u16), Message>)
    ensures
        match lookup {
            Ok(Some(a)) => r matches Ok((ip, port)) && ip@ == a.ip@ && port == a.port as u16,
            Ok(None) => r matches Err(m) && m@ == error_reply(404, "Agent not found"@),
            Err(_) => r matches Err(m) && m@ == error_reply(500, "Database error"@),
        },
{
    match lookup {
        Ok(Some(a)) => Ok((a.ip, a.port as u16)),
        Ok(None) => Err(error_response(404, "Agent not found")),
        Err(_) => Err(error_response(500, "Database error")),
    }
}

/// `connect-agent`: the answer once the connection was tried.
pub fn connect_agent_response(connected: bool) -> (r: Message)
    ensures
        r@ == if connected {
            ok_reply_plain(200, "Connected to agent"@)
        } else {
            error_reply(503, "Failed to connect to agent"@)
        },
{
    if connected {
        ok_response(200, "Connected to agent", None)
    } else {
        error_response(503, "Failed to connect to agent")
    }
}

/// A successful response without payload.
pub open spec fn ok_reply_plain(code: u16, text: Seq<char>) -> MessageView {
    crate::message::ok_reply(code, text, None)
}

/// `disconnect-agent`: the answer once the connection is dropped.
pub fn disconnect_agent_response() -> (r: Message)
    ensures
        r@ == ok_reply_plain(200, "Disconnected from agent"@),
{
    ok_response(200, "Disconnected from agent", None)
}

/// `get-all-agents`: the answer with the stored agents, or to a failed query.
pub fn get_all_agents_response(agents: Option<Json>) -> (r: Message)
    ensures
        listing_reply(r@, agents, "agents"@, "Successfully extracted agents"@, 500, "Failed to extract agents"@),
{
    listing(agents, "agents", "Successfully extracted agents", 500, "Failed to extract agents")
}

/// `new-agent`: the answer with the stored agent, or to a failed insert.
pub fn new_agent_response(agent: Option<Json>) -> (r: Message)
    ensures
        listing_reply(r@, agent, "agent"@, "Agent created successfully"@, 500, "Failed to create agent"@),
{
    listing(agent, "agent", "Agent created successfully", 500, "Failed to create agent")
}

/// The fields of an agent that an update may change; absent ones are kept.
#[derive(Debug)]
pub struct AgentUpdate {
    pub id: i32,
    pub ip: Option<String>,
    pub port: Option<i32>,
    pub name: Option<String>,
    pub description: Option<String>,
}

/// `update-agent`: refuses an update that changes nothing.
pub fn check_agent_update(update: &AgentUpdate) -> (r: Option<Message>)
    ensures
        match r {
            Some(m) => m@ == error_reply(400, "No fields to update"@),
            None => true,
        },
        r is Some <==> (update.ip is None && update.port is None && update.name is None
            && update.description is None),
{
    if update.ip.is_none() && update.port.is_none() && update.name.is_none() && update.description.is_none() {
        Some(error_response(400, "No fields to update"))
    } else {
        None
    }
}

/// `update-agent`: the answer with the updated agent, when there was one.
pub fn update_agent_response(updated: Result<Option<Json>, DbError>) -> (r: Message)
    ensures
        match updated {
            Ok(Some(a)) => payload_reply(r@, "Successfully updated agent"@, "agent"@, a),
            Ok(None) => r@ == error_reply(404, "Agent not found"@),
            Err(_) => r@ == error_reply(500, "Failed to update agent"@),
        },
{
    match updated {
        Ok(Some(a)) => payload_response("Successfully updated agent", "agent", a),
        Ok(None) => error_response(404, "Agent not found"),
        Err(_) => error_response(500, "Failed to update agent"),
    }
}

/// The id of the record a removal names, cut to 32 bits; its absence is
/// answered with 400 and `missing`.
pub open spec fn removal_id_of(data: Option<Json>, missing: Seq<char>) -> Result<i32, MessageView> {
    match data {
        None => Err(error_reply(400, "Missing data"@)),
        Some(d) => match member_i64(d, "id"@) {
            None => Err(error_reply(400, missing)),
            Some(id) => Ok(id as i32),
        },
    }
}

/// `remove-agent`: the id of the agent to remove.
pub fn remove_agent_id(data: Option<Json>) -> (r: Result<i32, Message>)
    ensures
        result_matches(r, removal_id_of(data, "Invalid remove-agent request: missing id"@)),
{
    let d = match require_data(data) {
        Ok(d) => d,
        Err(m) => return Err(m),
    };
    match require_i64(&d, "id", "Invalid remove-agent request: missing id") {
        Ok(id) => Ok(id as i32),
        Err(m) => Err(m),
    }
}

/// The text of a successful removal of record `id` of some `kind`.
pub open spec fn deleted_text(kind: Seq<char>, id: i32) -> Seq<char> {
    "Successfully deleted "@ + kind + " "@ + signed_decimal(id as int)
}

fn deleted_response(kind: &str, id: i32) -> (r: Message)
    ensures
        r@ == ok_reply_plain(200, deleted_text(kind@, id)),
{
    let mut text = String::from_str("Successfully deleted ");
    text.append(kind);
    text.append(" ");
    push_signed_decimal(&mut text, id as i64);
    Message::new_response(Status::Success, None, 200, text)
}

/// `remove-agent`: the answer once the delete ran; exactly one row must go.
pub fn remove_agent_response(id: i32, deleted: Result<u64, DbError>) -> (r: Message)
    ensures
        match deleted {
            Ok(rows) => r@ == if rows == 1 {
                ok_reply_plain(200, deleted_text("agent"@, id))
            } else {
                error_reply(404, "Agent not found"@)
            },
            Err(_) => r@ == error_reply(500, "Failed to delete agent"@),
        },
{
    match deleted {
        Ok(rows) => if rows == 1 {
            deleted_response("agent", id)
        } else {
            error_response(404, "Agent not found")
        },
        Err(_) => error_response(500, "Failed to delete agent"),
    }
}

// ---- users ----

/// `login`: the user the credentials identify, or the answer when none does.
pub fn login_user<U>(lookup: Result<Option<U>, DbError>) -> (r: Result<U, Message>)
    ensures
        match lookup {
            Ok(Some(u)) => r == Ok::<U, Message>(u),
            Ok(None) => r matches Err(m) && m@ == error_reply(401, "Invalid credentials"@),
            Err(_) => r matches Err(m) && m@ == error_reply(500, "Failed to login"@),
        },
{
    match lookup {
        Ok(Some(u)) => Ok(u),
        Ok(None) => Err(error_response(401, "Invalid credentials")),
        Err(_) => Err(error_response(500, "Failed to login")),
    }
}

/// `login`: the answer when the token cannot be issued.
pub fn login_failed() -> (r: Message)
    ensures
        r@ == error_reply(500, "Failed to login"@),
{
    error_response(500, "Failed to login")
}

/// `login`: the answer carrying the token and the user, as `{ auth: .. }`.
pub fn login_response(auth: Json) -> (r: Message)
    ensures
        payload_reply(r@, "Login successful"@, "auth"@, auth),
{
    payload_response("Login successful", "auth", auth)
}

/// `new-user`: the answer with the created user, or to a failed insert; an
/// address already taken is answered with 409.
pub fn new_user_response(created: Result<Json, DbError>) -> (r: Message)
    ensures
        match created {
            Ok(u) => payload_reply(r@, "Created successfully!"@, "user"@, u),
            Err(e) => r@ == if unique_violation(e) {
                error_reply(409, "User with this email already exists."@)
            } else {
                error_reply(500, "Failed to create new user."@)
            },
        },
{
    match created {
        Ok(u) => payload_response("Created successfully!", "user", u),
        Err(e) => if is_unique_violation(&e) {
            error_response(409, "User with this email already exists.")
        } else {
            error_response(500, "Failed to create new user.")
        },
    }
}

/// `get-all-users`: the answer with the users, or to a failed query.
pub fn get_all_users_response(users: Option<Json>) -> (r: Message)
    ensures
        listing_reply(r@, users, "users"@, "Successfully extracted users."@, 404, "No users found"@),
{
    listing(users, "users", "Successfully extracted users.", 404, "No users found")
}

/// The fields of a user that an update may change; absent ones are kept.
#[derive(Debug)]
pub struct UserUpdate {
    pub id: i32,
    pub name: Option<String>,
    pub email: Option<String>,
    pub password: Option<String>,
    pub is_admin: Option<bool>,
    pub gui_settings: Option<Json>,
}

/// Whether an update changes nothing.
pub open spec fn user_update_empty(u: UserUpdate) -> bool {
    u.name is None && u.email is None && u.password is None && u.is_admin is None
        && u.gui_settings is None
}

/// `update-user`: only an administrator may change a role, and an update
/// must change something.
pub fn check_user_update(update: &UserUpdate, ctx: &ConnectionContext) -> (r: Option<Message>)
    ensures
        match r {
            Some(m) => if !ctx.is_admin && update.is_admin is Some {
                m@ == error_reply(403, "Forbidden"@)
            } else {
                user_update_empty(*update) && m@ == error_reply(400, "No fields to update"@)
            },
            None => (ctx.is_admin || update.is_admin is None) && !user_update_empty(*update),
        },
{
    if !ctx.is_admin && update.is_admin.is_some() {
        return Some(error_response(403, "Forbidden"));
    }
    if update.name.is_none() && update.email.is_none() && update.password.is_none()
        && update.is_admin.is_none() && update.gui_settings.is_none() {
        return Some(error_response(400, "No fields to update"));
    }
    None
}

/// `update-user`: the answer with the updated user, or to a failed update.
pub fn update_user_response(updated: Result<Json, DbError>) -> (r: Message)
    ensures
        match updated {
            Ok(u) => payload_reply(r@, "Successfully updated user."@, "user"@, u),
            Err(DbError::RowNotFound) => r@ == error_reply(404, "User not found"@),
            Err(e) => r@ == if unique_violation(e) {
                error_reply(409, "User with this email already exists."@)
            } else {
                error_reply(500, "Failed to update user"@)
            },
        },
{
    match updated {
        Ok(u) => payload_response("Successfully updated user.", "user", u),
        Err(DbError::RowNotFound) => error_response(404, "User not found"),
        Err(e) => if is_unique_violation(&e) {
            error_response(409, "User with this email already exists.")
        } else {
            error_response(500, "Failed to update user")
        },
    }
}

/// How a user removal proceeds.
#[derive(Debug)]
pub enum RemovalPlan {
    /// Check `password` against the stored one before deleting user `id`.
    VerifyPassword { id: i32, password: String },
    /// Delete user `id` straight away.
    Delete { id: i32 },
}

/// Only an administrator removing someone else skips the password check.
pub open spec fn removal_needs_password(is_admin: bool, user_id: Option<i32>, id: i32) -> bool {
    !(is_admin && user_id != Some(id))
}

/// How a removal request goes on before anything is deleted: the user to
/// delete, with the password to check first when one is needed, or the
/// refusal.
pub open spec fn removal_plan_of(data: Option<Json>, is_admin: bool, user_id: Option<i32>) -> Result<(i32, Option<Seq<char>>), MessageView> {
    match removal_id_of(data, "Invalid remove-user request: missing id"@) {
        Err(m) => Err(m),
        Ok(id) => if !removal_needs_password(is_admin, user_id, id) {
            Ok((id, None))
        } else {
            match member_text(data->0, "password"@) {
                Some(p) => Ok((id, Some(p))),
                None => Err(error_reply(400, "Password is required"@)),
            }
        },
    }
}

/// A removal plan seen as the user to delete and the password to check.
pub open spec fn plan_view(r: Result<RemovalPlan, Message>) -> Result<(i32, Option<Seq<char>>), MessageView> {
    match r {
        Err(m) => Err(m@),
        Ok(RemovalPlan::Delete { id }) => Ok((id, None)),
        Ok(RemovalPlan::VerifyPassword { id, password }) => Ok((id, Some(password@))),
    }
}

/// `remove-user`: the user to remove and whether the password must be
/// checked first.
pub fn plan_user_removal(data: Option<Json>, ctx: &ConnectionContext) -> (r: Result<RemovalPlan, Message>)
    ensures
        plan_view(r) == removal_plan_of(data, ctx.is_admin, ctx.user_id),
{
    let d = match require_data(data) {
        Ok(d) => d,
        Err(m) => return Err(m),
    };
    let id = match require_i64(&d, "id", "Invalid remove-user request: missing id") {
        Ok(id) => id as i32,
        Err(m) => return Err(m),
    };
    let is_self_deletion = match ctx.user_id {
        Some(u) => u == id,
        None => false,
    };
    let is_admin_deleting_other = ctx.is_admin && !is_self_deletion;
    if is_admin_deleting_other {
        return Ok(RemovalPlan::Delete { id });
    }
    let password = match d.get("password") {
        Some(v) => v.as_str(),
        None => None,
    };
    match password {
        Some(p) => Ok(RemovalPlan::VerifyPassword { id, password: String::from_str(p) }),
        None => Err(error_response(400, "Password is required")),
    }
}

/// The refusal of a removal whose password was checked, given the stored
/// digest as looked up and the digest of the supplied password; none when
/// they are equal.
pub open spec fn password_refusal(stored: Result<Option<String>, DbError>, supplied_hash: Seq<char>) -> Option<MessageView> {
    match stored {
        Ok(Some(h)) => if h@ == supplied_hash {
            None
        } else {
            Some(error_reply(401, "Invalid password"@))
        },
        Ok(None) => Some(error_reply(404, "User not found"@)),
        Err(_) => Some(error_reply(500, "Failed to verify password"@)),
    }
}

/// `remove-user`: the check of the supplied password's hash against the
/// stored one; `None` when the removal may go on.
pub fn check_removal_password(stored: Result<Option<String>, DbError>, supplied_hash: &str) -> (r: Option<Message>)
    ensures
        match r {
            None => password_refusal(stored, supplied_hash@) is None,
            Some(m) => password_refusal(stored, supplied_hash@) == Some(m@),
        },
{
    match stored {
        Ok(Some(h)) => if same_text(supplied_hash, h.as_str()) {
            None
        } else {
            Some(error_response(401, "Invalid password"))
        },
        Ok(None) => Some(error_response(404, "User not found")),
        Err(_) => Some(error_response(500, "Failed to verify password")),
    }
}

/// Whether a digest was found stored and is `digest`.
pub open spec fn stored_digest_is(stored: Result<Option<String>, DbError>, digest: Seq<char>) -> bool {
    match stored {
        Ok(Some(h)) => h@ == digest,
        _ => false,
    }
}

/// The user a removal request deletes, when its plan is followed: at once
/// when no password is needed, else only once the password check lets it
/// go on; none when it is refused.
pub open spec fn removal_deletes(
    data: Option<Json>,
    is_admin: bool,
    user_id: Option<i32>,
    stored: Result<Option<String>, DbError>,
    supplied_hash: Seq<char>,
) -> Option<i32> {
    match removal_plan_of(data, is_admin, user_id) {
        Err(_) => None,
        Ok((id, None)) => Some(id),
        Ok((id, Some(_))) => if password_refusal(stored, supplied_hash) is None {
            Some(id)
        } else {
            None
        },
    }
}

/// `remove-user`: the answer once the delete ran; exactly one row must go.
pub fn remove_user_response(id: i32, deleted: Result<u64, DbError>) -> (r: Message)
    ensures
        match deleted {
            Ok(rows) => r@ == if rows == 1 {
                ok_reply_plain(200, deleted_text("user"@, id))
            } else {
                error_reply(404, "User not found"@)
            },
            Err(_) => r@ == error_reply(500, "Failed to delete user"@),
        },
{
    match deleted {
        Ok(rows) => if rows == 1 {
            deleted_response("user", id)
        } else {
            error_response(404, "User not found")
        },
        Err(_) => error_response(500, "Failed to delete user"),
    }
}

/// Someone who is not an administrator, or who removes their own account,
/// always has to give the password.
pub proof fn lemma_removal_password_required(is_admin: bool, user_id: Option<i32>, id: i32)
    requires
        !is_admin || user_id == Some(id),
    ensures
        removal_needs_password(is_admin, user_id, id),
{
}

/// A removal deletes only the user its request names, and only when an
/// administrator removes someone else, or when a password was given and
/// its digest is the stored one; in each of these cases it does delete.
pub proof fn lemma_user_removed_only_when_authorized(
    data: Option<Json>,
    is_admin: bool,
    user_id: Option<i32>,
    stored: Result<Option<String>, DbError>,
    supplied_hash: Seq<char>,
)
    ensures
        removal_deletes(data, is_admin, user_id, stored, supplied_hash) == match removal_id_of(
            data,
            "Invalid remove-user request: missing id"@,
        ) {
            Err(_) => None,
            Ok(id) => if (is_admin && user_id != Some(id)) || (member_text(data->0, "password"@) is Some
                && stored_digest_is(stored, supplied_hash)) {
                Some(id)
            } else {
                None
            },
        },
{
}

// ---- logs ----

/// The filters of a `get-logs` request.
#[derive(Debug)]
pub struct LogFilter {
    pub agent_id: Option<i32>,
    pub task_id: Option<i32>,
    pub user_id: Option<i32>,
    pub limit: Option<i64>,
    pub offset: Option<i64>,
}

/// The query a `get-logs` request runs.
#[derive(Debug)]
pub struct LogQuery {
    pub agent_id: Option<i32>,
    pub task_id: Option<i32>,
    pub user_id: Option<i32>,
    pub limit: i64,
    pub offset: i64,
}

/// `get-logs`: the query; no (or an unreadable) filter means no filter,
/// at most 1000 entries are sent (100 when no limit is asked for) and the
/// offset is 0 unless asked for.
pub fn log_query(filter: Option<LogFilter>) -> (r: LogQuery)
    ensures
        match filter {
            Some(f) => {
                &&& r.agent_id == f.agent_id
                &&& r.task_id == f.task_id
                &&& r.user_id == f.user_id
                &&& r.limit == match f.limit {
                    Some(l) => if l < 1000 { l } else { 1000 },
                    None => 100,
                }
                &&& r.offset == match f.offset {
                    Some(o) => o,
                    None => 0,
                }
            },
            None => r.agent_id is None && r.task_id is None && r.user_id is None && r.limit == 100
                && r.offset == 0,
        },
{
    let f = match filter {
        Some(f) => f,
        None => LogFilter { agent_id: None, task_id: None, user_id: None, limit: None, offset: None },
    };
    let asked: i64 = match f.limit {
        Some(l) => l,
        None => 100,
    };
    let limit = if asked < 1000 { asked } else { 1000 };
    let offset: i64 = match f.offset {
        Some(o) => o,
        None => 0,
    };
    LogQuery { agent_id: f.agent_id, task_id: f.task_id, user_id: f.user_id, limit, offset }
}

/// `get-logs`: the answer with the logs, or to a failed query.
pub fn get_logs_response(logs: Option<Json>) -> (r: Message)
    ensures
        listing_reply(r@, logs, "logs"@, "Successfully retrieved logs"@, 500, "Failed to retrieve logs"@),
{
    listing(logs, "logs", "Successfully retrieved logs", 500, "Failed to retrieve logs")
}

// ---- requests relayed to an agent ----

/// The payload, agent and second id of a request that names a record held
/// by an agent: the record id under `key`, its absence answered with
/// `missing`.
pub open spec fn agent_record_of(data: Option<Json>, key: Seq<char>, missing: Seq<char>) -> Result<(i64, i64), MessageView> {
    match agent_target_of(data) {
        Err(m) => Err(m),
        Ok((d, a)) => match member_i64(d, key) {
            None => Err(error_reply(400, missing)),
            Some(x) => Ok((a, x)),
        },
    }
}

/// The agent and record ids of a request that names a record held by an agent.
pub fn agent_record(data: Option<Json>, key: &str, missing: &str) -> (r: Result<(i64, i64), Message>)
    ensures
        result_matches(r, agent_record_of(data, key@, missing@)),
{
    let (d, a) = match agent_target(data) {
        Ok(t) => t,
        Err(m) => return Err(m),
    };
    match require_i64(&d, key, missing) {
        Ok(x) => Ok((a, x)),
        Err(m) => Err(m),
    }
}

/// `remove-core`: the agent and the core to remove.
pub fn remove_core_request(data: Option<Json>) -> (r: Result<(i64, i64), Message>)
    ensures
        result_matches(r, agent_record_of(data, "id"@, "Missing id"@)),
{
    agent_record(data, "id", "Missing id")
}

/// `remove-core`: the answer once the agent replied (or failed to).
pub fn remove_core_response(removed: bool) -> (r: Message)
    ensures
        r@ == if removed { ok_reply_plain(200, "Core removed"@) } else { error_reply(500, "Failed to remove core"@) },
{
    if removed { ok_response(200, "Core removed", None) } else { error_response(500, "Failed to remove core") }
}

/// `stop-task`: the agent and the task to stop.
pub fn stop_task_request(data: Option<Json>) -> (r: Result<(i64, i64), Message>)
    ensures
        result_matches(r, agent_record_of(data, "task_id"@, "Missing task_id"@)),
{
    agent_record(data, "task_id", "Missing task_id")
}

/// `stop-task`: the answer once the agent replied (or failed to).
pub fn stop_task_response(stopped: bool) -> (r: Message)
    ensures
        r@ == if stopped { ok_reply_plain(200, "Task stopped"@) } else { error_reply(500, "Failed to stop task"@) },
{
    if stopped { ok_response(200, "Task stopped", None) } else { error_response(500, "Failed to stop task") }
}

/// `remove-task`: the agent and the task to remove.
pub fn remove_task_request(data: Option<Json>) -> (r: Result<(i64, i64), Message>)
    ensures
        result_matches(r, agent_record_of(data, "id"@, "Missing id"@)),
{
    agent_record(data, "id", "Missing id")
}

/// `remove-task`: the answer when the agent did not remove the task.
pub fn remove_task_agent_failed() -> (r: Message)
    ensures
        r@ == error_reply(500, "Failed to remove task on agent"@),
{
    error_response(500, "Failed to remove task on agent")
}

/// `remove-task`: the answer once the task's record was deleted here too.
pub fn remove_task_response(deleted: Result<u64, DbError>) -> (r: Message)
    ensures
        match deleted {
            Ok(rows) => r@ == if rows > 0 {
                ok_reply_plain(200, "Task removed successfully"@)
            } else {
                error_reply(404, "Task not found in core DB"@)
            },
            Err(_) => r@ == error_reply(500, "Failed to delete task from core DB"@),
        },
{
    match deleted {
        Ok(rows) => if rows > 0 {
            ok_response(200, "Task removed successfully", None)
        } else {
            error_response(404, "Task not found in core DB")
        },
        Err(_) => error_response(500, "Failed to delete task from core DB"),
    }
}

/// What a `run-task` request asks: the agent, the task, and the script
/// kind, still to be read.
pub open spec fn run_task_of(data: Option<Json>) -> Result<(i64, i64, Json), MessageView> {
    match agent_record_of(data, "task_id"@, "Missing task_id"@) {
        Err(m) => Err(m),
        Ok((a, t)) => match json_get(data->0, "script_type"@) {
            None => Err(error_reply(400, "Missing script_type"@)),
            Some(k) => Ok((a, t, k)),
        },
    }
}

/// `run-task`: the agent, the task and the script kind to run.
pub fn run_task_request(data: Option<Json>) -> (r: Result<(i64, i64, Json), Message>)
    ensures
        result_matches(r, run_task_of(data)),
{
    let d = match require_data(data) {
        Ok(d) => d,
        Err(m) => return Err(m),
    };
    let a = match require_i64(&d, "agent_id", "Missing agent_id") {
        Ok(a) => a,
        Err(m) => return Err(m),
    };
    let t = match require_i64(&d, "task_id", "Missing task_id") {
        Ok(t) => t,
        Err(m) => return Err(m),
    };
    if d.get("script_type").is_none() {
        return Err(error_response(400, "Missing script_type"));
    }
    let k = d.take_member("script_type");
    Ok((a, t, k))
}

/// `run-task`: the answer to a script kind that is not one.
pub fn invalid_script_type() -> (r: Message)
    ensures
        r@ == error_reply(400, "Invalid script_type"@),
{
    error_response(400, "Invalid script_type")
}

/// `run-task`: the answer once the agent replied (or failed to).
pub fn run_task_response(started: bool) -> (r: Message)
    ensures
        r@ == if started { ok_reply_plain(200, "Task started"@) } else { error_reply(500, "Failed to run task"@) },
{
    if started { ok_response(200, "Task started", None) } else { error_response(500, "Failed to run task") }
}

/// `get-runs`: the answer with the agent's runs, or to a failed request.
pub fn get_runs_response(runs: Option<Json>) -> (r: Message)
    ensures
        listing_reply(r@, runs, "runs"@, "Successfully retrieved runs"@, 500, "Failed to get runs"@),
{
    listing(runs, "runs", "Successfully retrieved runs", 500, "Failed to get runs")
}

/// `get-all-tasks`: the answer with the agent's tasks, or to a failed request.
pub fn get_all_tasks_response(tasks: Option<Json>) -> (r: Message)
    ensures
        listing_reply(r@, tasks, "tasks"@, "Successfully retrieved all tasks"@, 500, "Failed to retrieve tasks"@),
{
    listing(tasks, "tasks", "Successfully retrieved all tasks", 500, "Failed to retrieve tasks")
}

/// `update-core`: the answer with the updated core, or to a failed request.
pub fn update_core_response(core: Option<Json>) -> (r: Message)
    ensures
        listing_reply(r@, core, "core"@, "Core updated"@, 500, "Failed to update core"@),
{
    listing(core, "core", "Core updated", 500, "Failed to update core")
}

/// `update-task`: the answer with the updated task, or to a failed request.
pub fn update_task_response(task: Option<Json>) -> (r: Message)
    ensures
        listing_reply(r@, task, "task"@, "Task updated successfully"@, 500, "Failed to update task"@),
{
    listing(task, "task", "Task updated successfully", 500, "Failed to update task")
}

/// `new-task`: the answer when the agent did not create the task.
pub fn new_task_agent_failed() -> (r: Message)
    ensures
        r@ == error_reply(500, "Failed to create task on agent"@),
{
    error_response(500, "Failed to create task on agent")
}

/// `new-task`: the answer with the task recorded here, or to a failed insert.
pub fn new_task_response(task: Option<Json>) -> (r: Message)
    ensures
        listing_reply(r@, task, "task"@, "Task created successfully"@, 500, "Failed to save task to database"@),
{
    listing(task, "task", "Task created successfully", 500, "Failed to save task to database")
}

/// When a removal needs the password (someone other than an administrator
/// removing another user), the password handed on for checking is the
/// whole text under `password`, and the user is the one under `id`.
pub proof fn lemma_removal_checks_given_password(
    d: Json,
    idv: Json,
    n: i64,
    pw: String,
    is_admin: bool,
    user_id: Option<i32>,
)
    requires
        json_get(d, "id"@) == Some(idv),
        json_as_i64(idv) == Some(n),
        json_get(d, "password"@) == Some(Json::Str(pw)),
        !is_admin || user_id == Some(n as i32),
    ensures
        removal_plan_of(Some(d), is_admin, user_id) == Ok::<(i32, Option<Seq<char>>), MessageView>(
            (n as i32, Some(pw@)),
        ),
{
}

} // verus!
