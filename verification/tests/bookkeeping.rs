use core_lib::agents::{agent_not_connected, AgentConnections};
use core_lib::json::Json;
use core_lib::message::{Message, Status};
use core_lib::pending::{classify_inbound, ping_request, stream_ack, Inbound, Inner, KeepaliveStep, PingOutcome};
use core_lib::registry::ConnectionRegistry;

#[test]
fn ids_count_up_then_reuse_the_last_freed() {
    let mut t: Inner<&str> = Inner::new(0);
    let a = t.begin_request("a", 5);
    let b = t.begin_request("b", 6);
    assert_eq!((a, b), (1, 2));
    assert!(t.is_pending(1) && t.is_pending(2));
    assert_eq!(t.settle(1, 7), Some("a"));
    assert!(!t.is_pending(1));
    assert_eq!(t.settle(1, 8), None);
    t.finish_request(1, true);
    let c = t.begin_request("c", 9);
    assert_eq!(c, 1);
    assert_eq!(t.alloc_id(), 3);
    assert!(t.is_held(3));
    assert!(!t.is_held(2));
    assert!(t.is_in_flight(2));
    assert_eq!(t.settle(2, 10), Some("b"));
    assert!(t.is_held(2));
    t.free_id(3);
    t.free_id(2);
    assert!(!t.is_in_flight(2));
    assert_eq!(t.alloc_id(), 2);
    assert_eq!(t.alloc_id(), 3);
}

#[test]
fn abandoned_request_is_forgotten_and_its_id_reused() {
    let mut t: Inner<u8> = Inner::new(0);
    let id = t.begin_request(1, 0);
    t.finish_request(id, false);
    assert!(!t.is_pending(id));
    assert_eq!(t.alloc_id(), id);
}

#[test]
fn keepalive_pings_only_when_due() {
    let mut t: Inner<u8> = Inner::new(1000);
    assert!(matches!(t.keepalive_step(false, 20999), KeepaliveStep::Wait));
    assert!(matches!(t.keepalive_step(false, 21000), KeepaliveStep::Ping));
    assert!(matches!(t.keepalive_step(true, 21000), KeepaliveStep::Stop));
    assert!(matches!(t.keepalive_step(true, 5000), KeepaliveStep::Stop));
    let id = t.begin_request(0, 21000);
    assert!(matches!(t.keepalive_step(false, 30000), KeepaliveStep::Wait));
    assert!(!t.finish_ping(id, PingOutcome::TimedOut));
    assert_eq!(t.alloc_id(), id);
}

#[test]
fn ping_schedule() {
    let mut t: Inner<u8> = Inner::new(1000);
    assert!(!t.ping_due(1000));
    assert!(!t.ping_due(20999));
    assert!(t.ping_due(21000));
    assert!(!t.ping_due(500));
    let id = t.begin_request(0, 21000);
    assert!(!t.ping_due(21001));
    assert_eq!(t.settle(id, 21002), Some(0));
    assert!(t.finish_ping(id, PingOutcome::Answered));
    let id = t.begin_request(0, 50000);
    assert!(!t.finish_ping(id, PingOutcome::TimedOut));
    assert!(!t.is_pending(id));
    let id = t.begin_request(0, 50000);
    assert!(!t.finish_ping(id, PingOutcome::SendFailed));
}

#[test]
fn inbound_messages() {
    let push = Message::new_request(5, "execution_stream".to_string(), None);
    assert!(matches!(classify_inbound(&push), Inbound::ExecutionStream { id: 5 }));
    let other = Message::new_request(5, "hello".to_string(), None);
    assert!(matches!(classify_inbound(&other), Inbound::UnknownPush));
    let mut resp = Message::new_response(Status::Success, None, 200, String::new());
    resp.set_id(12);
    assert!(matches!(classify_inbound(&resp), Inbound::Reply { id: 12 }));
}

#[test]
fn ack_and_ping_shapes() {
    match stream_ack(4) {
        Message::Response { id, status, code, message, data } => {
            assert_eq!((id, status, code), (4, Status::Success, 200));
            assert_eq!(message, "Received execution_stream");
            assert!(data.is_none());
        }
        _ => panic!("expected a response"),
    }
    match ping_request(6) {
        Message::Request { id, action, data } => {
            assert_eq!(id, 6);
            assert_eq!(action, "ping");
            assert!(matches!(data, Some(Json::Object(ref e)) if e.is_empty()));
        }
        _ => panic!("expected a request"),
    }
}

#[test]
fn agent_connections_keep_the_first() {
    let mut c: AgentConnections<&str> = AgentConnections::new();
    assert!(c.connect(1, "first"));
    assert!(!c.connect(1, "second"));
    assert_eq!(c.get(1), Some(&"first"));
    assert!(c.connect(-4, "other"));
    let mut ids = c.connected_agents();
    ids.sort();
    assert_eq!(ids, vec![-4, 1]);
    assert!(c.disconnect(1));
    assert!(!c.disconnect(1));
    assert!(!c.is_connected(1));
    assert!(c.get(1).is_none());
}

#[test]
fn agent_not_connected_answer() {
    match agent_not_connected(-12) {
        Message::Response { id, status, code, message, .. } => {
            assert_eq!((id, status, code), (0, Status::Error, 503));
            assert_eq!(message, "Agent -12 not connected");
        }
        _ => panic!("expected a response"),
    }
}

#[test]
fn broadcast_audience() {
    let mut r: ConnectionRegistry<char> = ConnectionRegistry::new();
    r.register(1, 'a');
    r.register(2, 'b');
    r.register(3, 'c');
    r.register(2, 'B');
    assert_eq!(r.get(2), Some(&'B'));
    let mut all = r.recipients(None);
    all.sort();
    assert_eq!(all, vec![1, 2, 3]);
    let mut some = r.recipients(Some(2));
    some.sort();
    assert_eq!(some, vec![1, 3]);
    r.unregister(1);
    let mut rest = r.recipients(Some(7));
    rest.sort();
    assert_eq!(rest, vec![2, 3]);
    assert!(r.get(1).is_none());
}
