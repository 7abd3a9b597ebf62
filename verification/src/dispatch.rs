//! How a message received from a client is answered: authentication,
//! the authentication and authorisation gates, and hand-over to the
//! handler of the requested action.
use vstd::prelude::*;
use crate::auth::{AuthClaims, action_allowed, extract_token, is_action_allowed, token_of};
use crate::context::ConnectionContext;
use crate::json::{Json, int_json, json_as_i64, json_get, member_of};
use crate::message::{Message, MessageView, Status, error_response, reply};
use crate::text::same_text;

verus! {

/// What to do with a message received from a client.
#[derive(Debug)]
pub enum Route {
    /// Send this response.
    Respond(Message),
    /// Verify this token, then answer with `finish_authentication`.
    Authenticate { id: u64, token: String },
    /// Hand the request to the handler registered for `action`, then
    /// answer with `answer` (or `unknown_action` when none is registered).
    Dispatch { id: u64, action: String, data: Option<Json> },
}

pub enum RouteView {
    Respond(MessageView),
    Authenticate { id: u64, token: Seq<char> },
    Dispatch { id: u64, action: Seq<char>, data: Option<Json> },
}

impl View for Route {
    type V = RouteView;

    open spec fn view(&self) -> RouteView {
        match self {
            Route::Respond(m) => RouteView::Respond(m@),
            Route::Authenticate { id, token } => RouteView::Authenticate { id: *id, token: token@ },
            Route::Dispatch { id, action, data } => RouteView::Dispatch {
                id: *id,
                action: action@,
                data: *data,
            },
        }
    }
}

/// The route of a message on a connection whose user is `user_id`
/// (`None` before authentication) and is an administrator or not.
pub open spec fn route_of(message: MessageView, is_admin: bool, user_id: Option<i32>) -> RouteView {
    match message {
        MessageView::Response { .. } => RouteView::Respond(
            reply(0, Status::Error, 400, "Response messages are not accepted on this socket"@),
        ),
        MessageView::Request { id, action, data } => {
            if action == "authenticate"@ {
                match token_of(data) {
                    None => RouteView::Respond(reply(id, Status::Error, 401, "Missing token"@)),
                    Some(t) => RouteView::Authenticate { id, token: t },
                }
            } else if action == "login"@ {
                RouteView::Dispatch { id, action, data }
            } else if user_id is None {
                RouteView::Respond(
                    reply(id, Status::Error, 401, "Not authenticated. Send authenticate first"@),
                )
            } else if !action_allowed(action, data, is_admin, user_id) {
                RouteView::Respond(reply(id, Status::Error, 403, "Forbidden"@))
            } else {
                RouteView::Dispatch { id, action, data }
            }
        },
    }
}

/// The payload of a successful authentication: the user's id and role.
pub open spec fn is_auth_payload(p: Json, claims: AuthClaims) -> bool {
    &&& p matches Json::Object(e) && e@.len() == 2
    &&& json_get(p, "user_id"@) == Some(int_json(claims.sub as int))
    &&& json_get(p, "is_admin"@) == Some(Json::Bool(claims.is_admin))
}

fn with_id(mut m: Message, id: u64) -> (r: Message)
    ensures
        r@ == m@.with_id(id),
{
    m.set_id(id);
    m
}

/// Decides how a received message is answered.
pub fn route_message(message: Message, ctx: &ConnectionContext) -> (r: Route)
    ensures
        r@ == route_of(message@, ctx.is_admin, ctx.user_id),
{
    match message {
        Message::Response { .. } => Route::Respond(
            error_response(400, "Response messages are not accepted on this socket"),
        ),
        Message::Request { id, action, data } => {
            if same_text(action.as_str(), "authenticate") {
                match extract_token(&data) {
                    None => Route::Respond(with_id(error_response(401, "Missing token"), id)),
                    Some(token) => Route::Authenticate { id, token },
                }
            } else if same_text(action.as_str(), "login") {
                Route::Dispatch { id, action, data }
            } else if ctx.user_id.is_none() {
                Route::Respond(
                    with_id(error_response(401, "Not authenticated. Send authenticate first"), id),
                )
            } else if !is_action_allowed(action.as_str(), &data, ctx) {
                Route::Respond(with_id(error_response(403, "Forbidden"), id))
            } else {
                Route::Dispatch { id, action, data }
            }
        },
    }
}

/// The answer to an `authenticate` request once its token has been
/// verified (`Some` claims) or refused (`None`); a verified token makes
/// the connection's user the token's subject.
pub fn finish_authentication(id: u64, verified: Option<AuthClaims>, ctx: &mut ConnectionContext) -> (r: Message)
    ensures
        final(ctx).conn_id == old(ctx).conn_id,
        final(ctx).ip == old(ctx).ip,
        final(ctx).is_closing == old(ctx).is_closing,
        match verified {
            Some(c) => {
                &&& final(ctx).user_id == Some(c.sub)
                &&& final(ctx).id == Some(c.sub)
                &&& final(ctx).is_admin == c.is_admin
                &&& r@ matches MessageView::Response { id: rid, status, code, text, data }
                &&& rid == id && status == Status::Success && code == 200
                &&& text == "Authenticated"@
                &&& data matches Some(p) && is_auth_payload(p, c)
            },
            None => {
                &&& final(ctx).user_id == old(ctx).user_id
                &&& final(ctx).id == old(ctx).id
                &&& final(ctx).is_admin == old(ctx).is_admin
                &&& r@ == reply(id, Status::Error, 401, "Invalid token"@)
            },
        },
{
    match verified {
        Some(claims) => {
            ctx.user_id = Some(claims.sub);
            ctx.is_admin = claims.is_admin;
            ctx.id = Some(claims.sub);
            let mut entries: Vec<(String, Json)> = Vec::new();
            entries.push((String::from_str("user_id"), Json::from_i64(claims.sub as i64)));
            entries.push((String::from_str("is_admin"), Json::Bool(claims.is_admin)));
            let payload = Json::Object(entries);
            proof {
                reveal_strlit("user_id");
                reveal_strlit("is_admin");
                let e = entries@;
                assert(e[0].0@ == "user_id"@);
                assert(e[1].0@ != "user_id"@);
                assert(e.drop_first()[0] == e[1]);
                assert(e[0].0@ != "is_admin"@);
                let d = e.drop_first();
                assert(d[0].0@ == "is_admin"@);
                assert(member_of(d, "is_admin"@) == Some(d[0].1));
                assert(json_get(payload, "user_id"@) == Some(int_json(claims.sub as int)));
                assert(json_get(payload, "is_admin"@) == Some(Json::Bool(claims.is_admin)));
            }
            let mut m = Message::new_response(
                Status::Success,
                Some(payload),
                200,
                String::from_str("Authenticated"),
            );
            m.set_id(id);
            m
        },
        None => with_id(error_response(401, "Invalid token"), id),
    }
}

/// The answer to a request whose action has no registered handler.
pub fn unknown_action(id: u64, action: &str) -> (r: Message)
    ensures
        r@ == reply(id, Status::Error, 404, "Unknown action: "@ + action@),
{
    let mut text = String::from_str("Unknown action: ");
    text.append(action);
    let mut m = Message::new_response(Status::Error, None, 404, text);
    m.set_id(id);
    m
}

/// The answer a handler gave, matched to the request it answers.
pub fn answer(id: u64, response: Message) -> (r: Message)
    ensures
        r@ == response@.with_id(id),
{
    with_id(response, id)
}

/// Every answer decided for a request carries the request's id.
pub proof fn lemma_answers_carry_request_id(
    id: u64,
    action: Seq<char>,
    data: Option<Json>,
    is_admin: bool,
    user_id: Option<i32>,
)
    ensures
        match route_of(MessageView::Request { id, action, data }, is_admin, user_id) {
            RouteView::Respond(m) => m.id() == id,
            RouteView::Authenticate { id: rid, .. } => rid == id,
            RouteView::Dispatch { id: rid, .. } => rid == id,
        },
{
}

/// Before authentication, every request other than `authenticate` and
/// `login` is refused with 401 and reaches no handler.
pub proof fn lemma_unauthenticated_requests_refused(
    id: u64,
    action: Seq<char>,
    data: Option<Json>,
    is_admin: bool,
)
    requires
        action != "authenticate"@,
        action != "login"@,
    ensures
        route_of(MessageView::Request { id, action, data }, is_admin, None) == RouteView::Respond(
            reply(id, Status::Error, 401, "Not authenticated. Send authenticate first"@),
        ),
{
}

/// An authenticated user who is not an administrator is refused (403)
/// every action but `authenticate`, `login`, and updating or removing
/// their own account.
pub proof fn lemma_non_admin_refused_other_actions(
    id: u64,
    action: Seq<char>,
    data: Option<Json>,
    user: i32,
)
    requires
        action != "authenticate"@,
        action != "login"@,
        action != "update-user"@,
        action != "remove-user"@,
    ensures
        route_of(MessageView::Request { id, action, data }, false, Some(user)) == RouteView::Respond(
            reply(id, Status::Error, 403, "Forbidden"@),
        ),
{
}

/// An authenticated administrator's requests, other than `authenticate`,
/// all reach the handler of their action, with their payload.
pub proof fn lemma_admin_requests_dispatched(
    id: u64,
    action: Seq<char>,
    data: Option<Json>,
    user: i32,
)
    requires
        action != "authenticate"@,
    ensures
        route_of(MessageView::Request { id, action, data }, true, Some(user)) == (RouteView::Dispatch {
            id,
            action,
            data,
        }),
{
}

/// Once a token for `claims` has been accepted on a connection, no request
/// on it is refused as unauthenticated any more.
pub proof fn lemma_authenticated_connection_passes_gate(
    claims: AuthClaims,
    id: u64,
    action: Seq<char>,
    data: Option<Json>,
)
    ensures
        route_of(MessageView::Request { id, action, data }, claims.is_admin, Some(claims.sub))
            != RouteView::Respond(
            reply(id, Status::Error, 401, "Not authenticated. Send authenticate first"@),
        ),
{
    reveal_strlit("Not authenticated. Send authenticate first");
    reveal_strlit("Missing token");
    reveal_strlit("Forbidden");
    assert("Missing token"@.len() != "Not authenticated. Send authenticate first"@.len());
}

/// Responses from a client are never handled: they are answered with 400.
pub proof fn lemma_responses_rejected(m: MessageView, is_admin: bool, user_id: Option<i32>)
    requires
        m is Response,
    ensures
        route_of(m, is_admin, user_id) == RouteView::Respond(
            reply(0, Status::Error, 400, "Response messages are not accepted on this socket"@),
        ),
{
}

/// On an authenticated connection, every request other than
/// `authenticate` whose action the user is allowed is handed to the
/// handler of its action, with its own id and payload.
pub proof fn lemma_allowed_requests_dispatched(
    id: u64,
    action: Seq<char>,
    data: Option<Json>,
    is_admin: bool,
    user: i32,
)
    requires
        action != "authenticate"@,
        action_allowed(action, data, is_admin, Some(user)),
    ensures
        route_of(MessageView::Request { id, action, data }, is_admin, Some(user)) == (RouteView::Dispatch {
            id,
            action,
            data,
        }),
{
}

/// A user, administrator or not, who updates or removes their own account
/// (the payload's `id` is their own, read as a 32-bit number) reaches the
/// handler of that action with the request's id and payload.
pub proof fn lemma_own_account_requests_dispatched(
    id: u64,
    action: Seq<char>,
    d: Json,
    target: Json,
    is_admin: bool,
    user: i32,
)
    requires
        action == "update-user"@ || action == "remove-user"@,
        json_get(d, "id"@) == Some(target),
        json_as_i64(target) matches Some(n) && n as i32 == user,
    ensures
        route_of(MessageView::Request { id, action, data: Some(d) }, is_admin, Some(user)) == (
        RouteView::Dispatch { id, action, data: Some(d) }),
{
    reveal_strlit("update-user");
    reveal_strlit("remove-user");
    reveal_strlit("authenticate");
    reveal_strlit("login");
    assert(action != "authenticate"@ && action != "login"@) by {
        assert(action.len() == 11);
    }
}

/// An `authenticate` request whose payload holds the text `s` under
/// `token` is routed to verification of exactly that text, whatever its
/// length, on any connection.
pub proof fn lemma_token_taken_whole(id: u64, d: Json, s: String, is_admin: bool, user_id: Option<i32>)
    requires
        json_get(d, "token"@) == Some(Json::Str(s)),
    ensures
        token_of(Some(d)) == Some(s@),
        route_of(MessageView::Request { id, action: "authenticate"@, data: Some(d) }, is_admin, user_id)
            == (RouteView::Authenticate { id, token: s@ }),
{
}

} // verus!
