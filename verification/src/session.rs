//! The reading loop of a client connection as a state machine: each thing
//! that happens while reading is an event, and the session says what to
//! do about it. The caller performs the actions: it queues answers,
//! processes messages, and on leaving unregisters the connection.
use vstd::prelude::*;
use crate::frames::{FrameStep, IDLE_TIMEOUT_MS, WsFrame, frame_text, idle_timeout_reached, next_step};
use crate::message::{Message, MessageView, error_reply};

verus! {

/// What happened while reading from a client.
#[derive(Debug)]
pub enum LoopEvent {
    /// A frame arrived, at the given millisecond.
    Frame(WsFrame, u64),
    /// The idle timer fired, at the given millisecond.
    Tick(u64),
    /// The client's stream ended, or reading from it failed.
    StreamEnded,
    /// The answer to a processed message could not be queued.
    SendFailed,
}

/// What the reading loop does next.
#[derive(Debug)]
pub enum LoopAction {
    /// Nothing to send; keep reading.
    Wait,
    /// Queue this answer and keep reading.
    Reply(Message),
    /// Read this text as a message, process it and queue its answer.
    Process(String),
    /// Queue a close frame, then leave.
    CloseAndLeave,
    /// Leave.
    Leave,
}

/// A loop action, with its answer seen as a message view.
pub enum ActionView {
    Wait,
    Reply(MessageView),
    Process(Seq<char>),
    CloseAndLeave,
    Leave,
}

impl View for LoopAction {
    type V = ActionView;

    open spec fn view(&self) -> ActionView {
        match self {
            LoopAction::Wait => ActionView::Wait,
            LoopAction::Reply(m) => ActionView::Reply(m@),
            LoopAction::Process(t) => ActionView::Process(t@),
            LoopAction::CloseAndLeave => ActionView::CloseAndLeave,
            LoopAction::Leave => ActionView::Leave,
        }
    }
}

/// The reading loop of one client connection.
pub struct ClientSession {
    last_frame_ms: u64,
    open: bool,
}

/// A session: when the last frame came, and whether the loop still runs.
pub struct SessionView {
    pub last_frame_ms: u64,
    pub open: bool,
}

impl View for ClientSession {
    type V = SessionView;

    closed spec fn view(&self) -> SessionView {
        SessionView { last_frame_ms: self.last_frame_ms, open: self.open }
    }
}

/// Whether an event is a frame that carries (or fails to carry) a message.
pub open spec fn is_data_frame(e: LoopEvent) -> bool {
    e matches LoopEvent::Frame(f, _) && !(f is Close || f is Ping || f is Pong)
}

/// Whether an action sends an answer to a frame.
pub open spec fn answers(a: ActionView) -> bool {
    a is Reply || a is Process
}

/// Whether an action ends the loop.
pub open spec fn leaves(a: ActionView) -> bool {
    a is CloseAndLeave || a is Leave
}

/// What a session does about an event. A session that has left ignores
/// everything.
pub open spec fn action_of(s: SessionView, e: LoopEvent) -> ActionView {
    if !s.open {
        ActionView::Wait
    } else {
        match e {
            LoopEvent::Frame(f, _) => if f is Close {
                ActionView::CloseAndLeave
            } else if f is Ping || f is Pong {
                ActionView::Wait
            } else {
                match frame_text(f) {
                    Some(t) => ActionView::Process(t),
                    None => ActionView::Reply(error_reply(400, "Invalid message payload"@)),
                }
            },
            LoopEvent::Tick(now) => if now >= s.last_frame_ms && now - s.last_frame_ms > IDLE_TIMEOUT_MS {
                ActionView::Leave
            } else {
                ActionView::Wait
            },
            LoopEvent::StreamEnded => ActionView::Leave,
            LoopEvent::SendFailed => ActionView::Leave,
        }
    }
}

/// The session after an event: every frame restarts the idle period, and
/// the session closes when it leaves.
pub open spec fn after_event(s: SessionView, e: LoopEvent) -> SessionView {
    if !s.open {
        s
    } else {
        let last = match e {
            LoopEvent::Frame(_, now) => now,
            _ => s.last_frame_ms,
        };
        SessionView { last_frame_ms: last, open: !leaves(action_of(s, e)) }
    }
}

impl ClientSession {
    /// A session for a connection opened at millisecond `now`.
    pub fn new(now: u64) -> (r: Self)
        ensures
            r@ == (SessionView { last_frame_ms: now, open: true }),
    {
        ClientSession { last_frame_ms: now, open: true }
    }

    /// Whether the loop still runs.
    pub fn is_open(&self) -> (r: bool)
        ensures
            r == self@.open,
    {
        self.open
    }

    /// Decides what to do about an event, and records it.
    pub fn step(&mut self, event: LoopEvent) -> (r: LoopAction)
        ensures
            r@ == action_of(old(self)@, event),
            final(self)@ == after_event(old(self)@, event),
    {
        if !self.open {
            return LoopAction::Wait;
        }
        match event {
            LoopEvent::Frame(frame, now) => {
                self.last_frame_ms = now;
                match next_step(frame) {
                    FrameStep::Close => {
                        self.open = false;
                        LoopAction::CloseAndLeave
                    },
                    FrameStep::Skip => LoopAction::Wait,
                    FrameStep::Reply(m) => LoopAction::Reply(m),
                    FrameStep::Payload(t) => LoopAction::Process(t),
                }
            },
            LoopEvent::Tick(now) => if idle_timeout_reached(now, self.last_frame_ms) {
                self.open = false;
                LoopAction::Leave
            } else {
                LoopAction::Wait
            },
            LoopEvent::StreamEnded => {
                self.open = false;
                LoopAction::Leave
            },
            LoopEvent::SendFailed => {
                self.open = false;
                LoopAction::Leave
            },
        }
    }
}

/// The actions a session takes over a run of events, in order.
pub open spec fn actions_of(s: SessionView, events: Seq<LoopEvent>) -> Seq<ActionView>
    decreases events.len(),
{
    if events.len() == 0 {
        Seq::empty()
    } else {
        seq![action_of(s, events[0])] + actions_of(after_event(s, events[0]), events.drop_first())
    }
}

/// The session before each event of a run.
pub open spec fn states_of(s: SessionView, events: Seq<LoopEvent>) -> Seq<SessionView>
    decreases events.len(),
{
    if events.len() == 0 {
        Seq::empty()
    } else {
        seq![s] + states_of(after_event(s, events[0]), events.drop_first())
    }
}

/// The session after a run of events.
pub open spec fn final_state(s: SessionView, events: Seq<LoopEvent>) -> SessionView
    decreases events.len(),
{
    if events.len() == 0 {
        s
    } else {
        final_state(after_event(s, events[0]), events.drop_first())
    }
}

/// Every frame that arrives while the loop runs restarts the idle period.
pub proof fn lemma_frame_restarts_idle(s: SessionView, f: WsFrame, now: u64)
    requires
        s.open,
    ensures
        after_event(s, LoopEvent::Frame(f, now)).last_frame_ms == now,
{
}

/// A session with no frame for longer than the idle timeout leaves at the
/// next tick; before that, a tick changes nothing.
pub proof fn lemma_idle_session_leaves(s: SessionView, now: u64)
    requires
        s.open,
        now >= s.last_frame_ms,
    ensures
        now - s.last_frame_ms > IDLE_TIMEOUT_MS ==> action_of(s, LoopEvent::Tick(now)) is Leave
            && !after_event(s, LoopEvent::Tick(now)).open,
        now - s.last_frame_ms <= IDLE_TIMEOUT_MS ==> action_of(s, LoopEvent::Tick(now)) is Wait
            && after_event(s, LoopEvent::Tick(now)) == s,
{
}

/// Over any run of events, the session answers exactly the data frames
/// that arrive while it runs, one answer each, at their places; it never
/// answers anything else.
pub proof fn lemma_one_answer_per_data_frame(s: SessionView, events: Seq<LoopEvent>)
    ensures
        actions_of(s, events).len() == events.len(),
        states_of(s, events).len() == events.len(),
        forall|i: int|
            0 <= i < events.len() ==> (answers(#[trigger] actions_of(s, events)[i]) <==> (states_of(
                s,
                events,
            )[i].open && is_data_frame(events[i]))),
    decreases events.len(),
{
    if events.len() > 0 {
        let t = after_event(s, events[0]);
        let rest = events.drop_first();
        lemma_one_answer_per_data_frame(t, rest);
        assert forall|i: int|
            0 <= i < events.len() implies (answers(#[trigger] actions_of(s, events)[i]) <==> (
            states_of(s, events)[i].open && is_data_frame(events[i]))) by {
            if i > 0 {
                assert(actions_of(s, events)[i] == actions_of(t, rest)[i - 1]);
                assert(states_of(s, events)[i] == states_of(t, rest)[i - 1]);
                assert(events[i] == rest[i - 1]);
            }
        }
    }
}

/// A session leaves at most once: a running session leaves exactly when
/// it ends up closed, at a single event of the run, and a closed session
/// never acts again.
pub proof fn lemma_leaves_once(s: SessionView, events: Seq<LoopEvent>)
    ensures
        !s.open ==> final_state(s, events) == s && forall|i: int|
            0 <= i < events.len() ==> #[trigger] actions_of(s, events)[i] is Wait,
        forall|i: int, j: int|
            0 <= i < j < events.len() && leaves(#[trigger] actions_of(s, events)[i]) ==> !leaves(
                #[trigger] actions_of(s, events)[j],
            ),
        s.open ==> (!final_state(s, events).open <==> exists|i: int|
            0 <= i < events.len() && leaves(#[trigger] actions_of(s, events)[i])),
    decreases events.len(),
{
    if events.len() > 0 {
        let t = after_event(s, events[0]);
        let rest = events.drop_first();
        lemma_leaves_once(t, rest);
        lemma_one_answer_per_data_frame(s, events);
        lemma_one_answer_per_data_frame(t, rest);
        let acts = actions_of(s, events);
        assert forall|i: int| 1 <= i < events.len() implies #[trigger] acts[i] == actions_of(t, rest)[i - 1] by {}
        if !s.open {
            assert forall|i: int| 0 <= i < events.len() implies #[trigger] acts[i] is Wait by {
                if i > 0 {
                    assert(acts[i] == actions_of(t, rest)[i - 1]);
                }
            }
        }
        assert forall|i: int, j: int|
            0 <= i < j < events.len() && leaves(#[trigger] acts[i]) implies !leaves(#[trigger] acts[j]) by {
            assert(acts[j] == actions_of(t, rest)[j - 1]);
            if i > 0 {
                assert(acts[i] == actions_of(t, rest)[i - 1]);
            } else {
                assert(!t.open);
            }
        }
        if s.open {
            if leaves(acts[0]) {
                assert(!t.open);
            } else {
                assert(t.open);
                if exists|i: int| 0 <= i < events.len() && leaves(#[trigger] acts[i]) {
                    let i = choose|i: int| 0 <= i < events.len() && leaves(#[trigger] acts[i]);
                    assert(i > 0);
                    assert(acts[i] == actions_of(t, rest)[i - 1]);
                }
                if exists|k: int| 0 <= k < rest.len() && leaves(#[trigger] actions_of(t, rest)[k]) {
                    let k = choose|k: int| 0 <= k < rest.len() && leaves(#[trigger] actions_of(t, rest)[k]);
                    assert(acts[k + 1] == actions_of(t, rest)[k]);
                }
            }
        }
    }
}

} // verus!
