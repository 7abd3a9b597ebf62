use core_lib::frames::WsFrame;
use core_lib::message::{Message, Status};
use core_lib::registry::ConnectionRegistry;
use core_lib::session::{ClientSession, LoopAction, LoopEvent};

fn is_wait(a: &LoopAction) -> bool {
    matches!(a, LoopAction::Wait)
}

fn is_leave(a: &LoopAction) -> bool {
    matches!(a, LoopAction::Leave)
}

#[test]
fn data_frames_are_answered_one_each() {
    let mut s = ClientSession::new(0);
    match s.step(LoopEvent::Frame(WsFrame::Text("{}".to_string()), 10)) {
        LoopAction::Process(t) => assert_eq!(t, "{}"),
        other => panic!("unexpected {:?}", other),
    }
    match s.step(LoopEvent::Frame(WsFrame::Binary(b"hi".to_vec()), 20)) {
        LoopAction::Process(t) => assert_eq!(t, "hi"),
        other => panic!("unexpected {:?}", other),
    }
    match s.step(LoopEvent::Frame(WsFrame::Binary(vec![0xff, 0xfe]), 30)) {
        LoopAction::Reply(Message::Response { status, code, message, .. }) => {
            assert_eq!((status, code, message.as_str()), (Status::Error, 400, "Invalid message payload"));
        }
        other => panic!("unexpected {:?}", other),
    }
    assert!(matches!(s.step(LoopEvent::Frame(WsFrame::Other, 35)), LoopAction::Reply(_)));
    assert!(is_wait(&s.step(LoopEvent::Frame(WsFrame::Ping, 40))));
    assert!(is_wait(&s.step(LoopEvent::Frame(WsFrame::Pong, 50))));
    assert!(s.is_open());
}

#[test]
fn close_frame_leaves_once() {
    let mut s = ClientSession::new(0);
    assert!(matches!(s.step(LoopEvent::Frame(WsFrame::Close, 5)), LoopAction::CloseAndLeave));
    assert!(!s.is_open());
    assert!(is_wait(&s.step(LoopEvent::Frame(WsFrame::Text("{}".to_string()), 6))));
    assert!(is_wait(&s.step(LoopEvent::StreamEnded)));
    assert!(is_wait(&s.step(LoopEvent::Tick(1_000_000))));
}

#[test]
fn idle_connection_leaves_after_the_timeout() {
    let mut s = ClientSession::new(0);
    assert!(is_wait(&s.step(LoopEvent::Frame(WsFrame::Ping, 1_000))));
    assert!(is_wait(&s.step(LoopEvent::Tick(61_000))));
    assert!(s.is_open());
    assert!(is_leave(&s.step(LoopEvent::Tick(61_001))));
    assert!(!s.is_open());
}

#[test]
fn any_frame_restarts_the_idle_period() {
    let mut s = ClientSession::new(0);
    assert!(is_wait(&s.step(LoopEvent::Frame(WsFrame::Pong, 50_000))));
    assert!(is_wait(&s.step(LoopEvent::Tick(100_000))));
    assert!(is_leave(&s.step(LoopEvent::Tick(110_001))));
}

#[test]
fn stream_end_and_send_failure_leave() {
    let mut s = ClientSession::new(0);
    assert!(is_leave(&s.step(LoopEvent::StreamEnded)));
    let mut s = ClientSession::new(0);
    assert!(is_leave(&s.step(LoopEvent::SendFailed)));
    assert!(is_wait(&s.step(LoopEvent::SendFailed)));
}

#[test]
fn unregistering_a_connection_keeps_the_others() {
    let mut r: ConnectionRegistry<&str> = ConnectionRegistry::new();
    r.register(1, "one");
    r.register(7, "seven");
    r.register(2, "two");
    r.unregister(2);
    r.register(3, "three");
    assert_eq!(r.get(7), Some(&"seven"));
    r.unregister(7);
    assert_eq!(r.get(7), None);
    let mut ids = r.recipients(None);
    ids.sort();
    assert_eq!(ids, vec![1, 3]);
}
