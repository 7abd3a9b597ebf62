use core_lib::auth::{extract_token, get_target_user_id, is_action_allowed, AuthClaims};
use core_lib::context::ConnectionContext;
use core_lib::dispatch::{answer, finish_authentication, route_message, unknown_action, Route};
use core_lib::json::Json;
use core_lib::message::{Message, Status};

fn obj(members: Vec<(&str, Json)>) -> Json {
    Json::Object(members.into_iter().map(|(k, v)| (k.to_string(), v)).collect())
}

fn request(id: u64, action: &str, data: Option<Json>) -> Message {
    Message::new_request(id, action.to_string(), data)
}

fn expect_reply(r: Route, want_id: u64, want_code: u16, want_text: &str) {
    match r {
        Route::Respond(Message::Response { id, status, code, message, .. }) => {
            assert_eq!(id, want_id);
            assert_eq!(status, Status::Error);
            assert_eq!(code, want_code);
            assert_eq!(message, want_text);
        }
        _ => panic!("expected a reply"),
    }
}

fn user_ctx(user: i32, admin: bool) -> ConnectionContext {
    let mut ctx = ConnectionContext::new("127.0.0.1".to_string(), 1);
    ctx.user_id = Some(user);
    ctx.is_admin = admin;
    ctx
}

#[test]
fn new_context_is_unauthenticated() {
    let ctx = ConnectionContext::new("10.0.0.1".to_string(), 9);
    assert_eq!(ctx.user_id, None);
    assert_eq!(ctx.id, None);
    assert!(!ctx.is_admin);
    assert_eq!(ctx.conn_id, 9);
    assert_eq!(ctx.ip, "10.0.0.1");
}

#[test]
fn token_extraction() {
    let data = Some(obj(vec![("token", Json::Str("abc".to_string()))]));
    assert_eq!(extract_token(&data), Some("abc".to_string()));
    assert_eq!(extract_token(&Some(obj(vec![("token", Json::PosInt(1))]))), None);
    assert_eq!(extract_token(&None), None);
}

#[test]
fn target_user_is_cut_to_32_bits() {
    assert_eq!(get_target_user_id(&Some(obj(vec![("id", Json::PosInt(7))]))), Some(7));
    assert_eq!(get_target_user_id(&Some(obj(vec![("id", Json::PosInt(4294967297))]))), Some(1));
    assert_eq!(get_target_user_id(&Some(obj(vec![]))), None);
}

#[test]
fn authorisation_rule() {
    let own = Some(obj(vec![("id", Json::PosInt(5))]));
    let other = Some(obj(vec![("id", Json::PosInt(6))]));
    assert!(is_action_allowed("new-agent", &None, &user_ctx(1, true)));
    assert!(is_action_allowed("update-user", &own, &user_ctx(5, false)));
    assert!(is_action_allowed("remove-user", &own, &user_ctx(5, false)));
    assert!(!is_action_allowed("remove-user", &other, &user_ctx(5, false)));
    assert!(!is_action_allowed("new-agent", &own, &user_ctx(5, false)));
    assert!(!is_action_allowed("update-user", &None, &user_ctx(5, false)));
}

#[test]
fn responses_from_clients_are_rejected() {
    let ctx = user_ctx(1, true);
    let m = Message::new_response(Status::Success, None, 200, "hi".to_string());
    expect_reply(route_message(m, &ctx), 0, 400, "Response messages are not accepted on this socket");
}

#[test]
fn unauthenticated_requests_refused() {
    let ctx = ConnectionContext::new("x".to_string(), 1);
    expect_reply(route_message(request(11, "get-all-agents", None), &ctx), 11, 401, "Not authenticated. Send authenticate first");
}

#[test]
fn login_reaches_its_handler_unauthenticated() {
    let ctx = ConnectionContext::new("x".to_string(), 1);
    match route_message(request(3, "login", None), &ctx) {
        Route::Dispatch { id, action, data } => {
            assert_eq!(id, 3);
            assert_eq!(action, "login");
            assert!(data.is_none());
        }
        _ => panic!("expected dispatch"),
    }
}

#[test]
fn authenticate_without_token() {
    let ctx = ConnectionContext::new("x".to_string(), 1);
    expect_reply(route_message(request(4, "authenticate", None), &ctx), 4, 401, "Missing token");
}

#[test]
fn authenticate_with_token() {
    let ctx = ConnectionContext::new("x".to_string(), 1);
    let data = Some(obj(vec![("token", Json::Str("t0k".to_string()))]));
    match route_message(request(4, "authenticate", data), &ctx) {
        Route::Authenticate { id, token } => {
            assert_eq!(id, 4);
            assert_eq!(token, "t0k");
        }
        _ => panic!("expected authentication"),
    }
}

#[test]
fn non_admin_forbidden() {
    expect_reply(route_message(request(8, "new-agent", None), &user_ctx(2, false)), 8, 403, "Forbidden");
}

#[test]
fn admin_dispatched() {
    match route_message(request(8, "new-agent", None), &user_ctx(2, true)) {
        Route::Dispatch { id, action, .. } => {
            assert_eq!(id, 8);
            assert_eq!(action, "new-agent");
        }
        _ => panic!("expected dispatch"),
    }
}

#[test]
fn successful_authentication_opens_the_gate() {
    let mut ctx = ConnectionContext::new("x".to_string(), 1);
    let r = finish_authentication(21, Some(AuthClaims { sub: 42, is_admin: false }), &mut ctx);
    assert_eq!(ctx.user_id, Some(42));
    assert_eq!(ctx.id, Some(42));
    assert!(!ctx.is_admin);
    match r {
        Message::Response { id, status, code, message, data } => {
            assert_eq!((id, status, code), (21, Status::Success, 200));
            assert_eq!(message, "Authenticated");
            let d = data.expect("payload");
            assert_eq!(d.get("user_id").and_then(|v| v.as_i64()), Some(42));
            assert!(matches!(d.get("is_admin"), Some(Json::Bool(false))));
        }
        _ => panic!("expected a response"),
    }
    let own = Some(obj(vec![("id", Json::PosInt(42))]));
    assert!(matches!(route_message(request(22, "update-user", own), &ctx), Route::Dispatch { .. }));
}

#[test]
fn failed_authentication() {
    let mut ctx = ConnectionContext::new("x".to_string(), 1);
    let r = finish_authentication(5, None, &mut ctx);
    assert_eq!(ctx.user_id, None);
    match r {
        Message::Response { id, code, message, .. } => {
            assert_eq!((id, code), (5, 401));
            assert_eq!(message, "Invalid token");
        }
        _ => panic!("expected a response"),
    }
}

#[test]
fn unknown_actions_and_answers() {
    match unknown_action(9, "fly") {
        Message::Response { id, code, message, .. } => {
            assert_eq!((id, code), (9, 404));
            assert_eq!(message, "Unknown action: fly");
        }
        _ => panic!("expected a response"),
    }
    let handled = answer(77, Message::new_response(Status::Success, None, 200, "done".to_string()));
    assert_eq!(handled.id(), 77);
}
