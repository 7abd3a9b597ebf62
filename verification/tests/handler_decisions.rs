use core_lib::context::ConnectionContext;
use core_lib::handlers::{
    agent_target, check_agent_update, check_removal_password, check_user_update, connect_agent_address,
    connect_agent_response, disconnect_agent_response, get_all_agents_response, get_all_tasks_response,
    get_all_users_response, get_logs_response, get_runs_response, invalid_request, invalid_script_type,
    is_unique_violation, log_query, login_failed, login_response, login_user, new_agent_response,
    new_task_agent_failed, new_task_response, new_user_response, plan_user_removal, remove_agent_id,
    remove_agent_response, remove_core_request, remove_core_response, remove_task_agent_failed,
    remove_task_request, remove_task_response, remove_user_response, require_data, run_task_request,
    run_task_response, stop_task_request, stop_task_response, update_agent_response, update_core_response,
    update_task_response, update_user_response, AgentAddress, AgentUpdate, DbError, LogFilter, RemovalPlan,
    UserUpdate,
};
use core_lib::json::Json;
use core_lib::message::{Message, Status};

fn obj(members: Vec<(&str, Json)>) -> Json {
    Json::Object(members.into_iter().map(|(k, v)| (k.to_string(), v)).collect())
}

fn parts(m: &Message) -> (Status, u16, String) {
    match m {
        Message::Response { status, code, message, .. } => (*status, *code, message.clone()),
        _ => panic!("expected a response"),
    }
}

fn err(m: &Message, code: u16, text: &str) {
    assert_eq!(parts(m), (Status::Error, code, text.to_string()));
}

fn ok(m: &Message, code: u16, text: &str) {
    assert_eq!(parts(m), (Status::Success, code, text.to_string()));
}

fn ctx(user: Option<i32>, admin: bool) -> ConnectionContext {
    let mut c = ConnectionContext::new("h".to_string(), 0);
    c.user_id = user;
    c.is_admin = admin;
    c
}

#[test]
fn payload_and_ids() {
    err(&require_data(None).unwrap_err(), 400, "Missing data");
    assert!(require_data(Some(Json::Null)).is_ok());
    err(&agent_target(Some(obj(vec![]))).unwrap_err(), 400, "Missing agent_id");
    let (_, a) = agent_target(Some(obj(vec![("agent_id", Json::PosInt(4))]))).unwrap();
    assert_eq!(a, 4);
    err(&invalid_request("new-user"), 400, "Invalid new-user request");
}

#[test]
fn unique_violations() {
    assert!(is_unique_violation(&DbError::Database { code: Some("23505".to_string()) }));
    assert!(!is_unique_violation(&DbError::Database { code: Some("23503".to_string()) }));
    assert!(!is_unique_violation(&DbError::Database { code: None }));
    assert!(!is_unique_violation(&DbError::RowNotFound));
}

#[test]
fn connect_agent_steps() {
    let (ip, port) = connect_agent_address(Ok(Some(AgentAddress { ip: "1.2.3.4".to_string(), port: 70000 }))).unwrap();
    assert_eq!((ip.as_str(), port), ("1.2.3.4", 70000u32 as u16));
    err(&connect_agent_address(Ok(None)).unwrap_err(), 404, "Agent not found");
    err(&connect_agent_address(Err(DbError::Other)).unwrap_err(), 500, "Database error");
    ok(&connect_agent_response(true), 200, "Connected to agent");
    err(&connect_agent_response(false), 503, "Failed to connect to agent");
    ok(&disconnect_agent_response(), 200, "Disconnected from agent");
}

#[test]
fn listings() {
    let m = get_all_agents_response(Some(Json::Array(vec![])));
    ok(&m, 200, "Successfully extracted agents");
    match m {
        Message::Response { data: Some(d), .. } => assert!(matches!(d.get("agents"), Some(Json::Array(_)))),
        _ => panic!("expected a payload"),
    }
    err(&get_all_agents_response(None), 500, "Failed to extract agents");
    err(&get_all_users_response(None), 404, "No users found");
    ok(&get_all_users_response(Some(Json::Null)), 200, "Successfully extracted users.");
    err(&get_logs_response(None), 500, "Failed to retrieve logs");
    err(&get_runs_response(None), 500, "Failed to get runs");
    err(&get_all_tasks_response(None), 500, "Failed to retrieve tasks");
    ok(&update_core_response(Some(Json::Null)), 200, "Core updated");
    err(&update_task_response(None), 500, "Failed to update task");
    err(&new_task_response(None), 500, "Failed to save task to database");
    ok(&new_agent_response(Some(Json::Null)), 200, "Agent created successfully");
    err(&new_task_agent_failed(), 500, "Failed to create task on agent");
}

#[test]
fn agent_updates() {
    let none = AgentUpdate { id: 1, ip: None, port: None, name: None, description: None };
    err(&check_agent_update(&none).unwrap(), 400, "No fields to update");
    let some = AgentUpdate { id: 1, ip: None, port: Some(80), name: None, description: None };
    assert!(check_agent_update(&some).is_none());
    ok(&update_agent_response(Ok(Some(Json::Null))), 200, "Successfully updated agent");
    err(&update_agent_response(Ok(None)), 404, "Agent not found");
    err(&update_agent_response(Err(DbError::Other)), 500, "Failed to update agent");
}

#[test]
fn agent_removal() {
    err(&remove_agent_id(Some(obj(vec![]))).unwrap_err(), 400, "Invalid remove-agent request: missing id");
    assert_eq!(remove_agent_id(Some(obj(vec![("id", Json::PosInt(9))]))).ok(), Some(9));
    ok(&remove_agent_response(9, Ok(1)), 200, "Successfully deleted agent 9");
    err(&remove_agent_response(9, Ok(0)), 404, "Agent not found");
    err(&remove_agent_response(9, Err(DbError::Other)), 500, "Failed to delete agent");
}

#[test]
fn user_creation_and_update() {
    ok(&new_user_response(Ok(Json::Null)), 200, "Created successfully!");
    err(&new_user_response(Err(DbError::Database { code: Some("23505".to_string()) })), 409, "User with this email already exists.");
    err(&new_user_response(Err(DbError::Other)), 500, "Failed to create new user.");
    let promote = UserUpdate { id: 1, name: None, email: None, password: None, is_admin: Some(true), gui_settings: None };
    err(&check_user_update(&promote, &ctx(Some(1), false)).unwrap(), 403, "Forbidden");
    assert!(check_user_update(&promote, &ctx(Some(1), true)).is_none());
    let empty = UserUpdate { id: 1, name: None, email: None, password: None, is_admin: None, gui_settings: None };
    err(&check_user_update(&empty, &ctx(Some(1), true)).unwrap(), 400, "No fields to update");
    ok(&update_user_response(Ok(Json::Null)), 200, "Successfully updated user.");
    err(&update_user_response(Err(DbError::RowNotFound)), 404, "User not found");
    err(&update_user_response(Err(DbError::Database { code: Some("23505".to_string()) })), 409, "User with this email already exists.");
    err(&update_user_response(Err(DbError::Other)), 500, "Failed to update user");
}

#[test]
fn login_steps() {
    assert_eq!(login_user::<u8>(Ok(Some(3))).ok(), Some(3));
    err(&login_user::<u8>(Ok(None)).unwrap_err(), 401, "Invalid credentials");
    err(&login_user::<u8>(Err(DbError::Other)).unwrap_err(), 500, "Failed to login");
    err(&login_failed(), 500, "Failed to login");
    ok(&login_response(Json::Null), 200, "Login successful");
}

#[test]
fn user_removal_plans() {
    let data = |pw: bool| {
        let mut m = vec![("id", Json::PosInt(5))];
        if pw {
            m.push(("password", Json::Str("pw".to_string())));
        }
        Some(obj(m))
    };
    assert!(matches!(plan_user_removal(data(false), &ctx(Some(1), true)), Ok(RemovalPlan::Delete { id: 5 })));
    err(&plan_user_removal(data(false), &ctx(Some(5), true)).err().unwrap(), 400, "Password is required");
    err(&plan_user_removal(data(false), &ctx(Some(5), false)).err().unwrap(), 400, "Password is required");
    match plan_user_removal(data(true), &ctx(Some(5), false)) {
        Ok(RemovalPlan::VerifyPassword { id, password }) => {
            assert_eq!(id, 5);
            assert_eq!(password, "pw");
        }
        _ => panic!("expected a password check"),
    }
    err(&plan_user_removal(Some(obj(vec![])), &ctx(None, true)).err().unwrap(), 400, "Invalid remove-user request: missing id");
    err(&plan_user_removal(None, &ctx(None, true)).err().unwrap(), 400, "Missing data");
    assert!(check_removal_password(Ok(Some("h".to_string())), "h").is_none());
    err(&check_removal_password(Ok(Some("h".to_string())), "g").unwrap(), 401, "Invalid password");
    err(&check_removal_password(Ok(None), "g").unwrap(), 404, "User not found");
    err(&check_removal_password(Err(DbError::Other), "g").unwrap(), 500, "Failed to verify password");
    ok(&remove_user_response(-5, Ok(1)), 200, "Successfully deleted user -5");
    err(&remove_user_response(5, Ok(2)), 404, "User not found");
    err(&remove_user_response(5, Err(DbError::Other)), 500, "Failed to delete user");
}

#[test]
fn log_queries() {
    let q = log_query(None);
    assert_eq!((q.agent_id, q.task_id, q.user_id, q.limit, q.offset), (None, None, None, 100, 0));
    let q = log_query(Some(LogFilter { agent_id: Some(1), task_id: None, user_id: Some(3), limit: Some(5000), offset: Some(20) }));
    assert_eq!((q.agent_id, q.task_id, q.user_id, q.limit, q.offset), (Some(1), None, Some(3), 1000, 20));
    let q = log_query(Some(LogFilter { agent_id: None, task_id: None, user_id: None, limit: Some(10), offset: None }));
    assert_eq!((q.limit, q.offset), (10, 0));
}

#[test]
fn relayed_requests() {
    let base = |extra: Vec<(&str, Json)>| {
        let mut m = vec![("agent_id", Json::PosInt(2))];
        m.extend(extra);
        Some(obj(m))
    };
    err(&remove_core_request(base(vec![])).unwrap_err(), 400, "Missing id");
    assert_eq!(remove_core_request(base(vec![("id", Json::PosInt(3))])).ok(), Some((2, 3)));
    err(&stop_task_request(base(vec![])).unwrap_err(), 400, "Missing task_id");
    assert_eq!(remove_task_request(base(vec![("id", Json::NegInt(-1))])).ok(), Some((2, -1)));
    err(&run_task_request(base(vec![("task_id", Json::PosInt(1))])).unwrap_err(), 400, "Missing script_type");
    match run_task_request(base(vec![("task_id", Json::PosInt(1)), ("script_type", Json::Null)])) {
        Ok((a, t, Json::Null)) => assert_eq!((a, t), (2, 1)),
        _ => panic!("a present script kind is handed on"),
    }
    err(&invalid_script_type(), 400, "Invalid script_type");
    ok(&run_task_response(true), 200, "Task started");
    err(&run_task_response(false), 500, "Failed to run task");
    ok(&stop_task_response(true), 200, "Task stopped");
    err(&stop_task_response(false), 500, "Failed to stop task");
    ok(&remove_core_response(true), 200, "Core removed");
    err(&remove_core_response(false), 500, "Failed to remove core");
    err(&remove_task_agent_failed(), 500, "Failed to remove task on agent");
    ok(&remove_task_response(Ok(1)), 200, "Task removed successfully");
    err(&remove_task_response(Ok(0)), 404, "Task not found in core DB");
    err(&remove_task_response(Err(DbError::Other)), 500, "Failed to delete task from core DB");
}
