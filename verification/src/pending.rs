//! Bookkeeping of the requests sent to an agent and not yet answered:
//! request ids, the waiting requesters, and the time of the last exchange
//! that the keep-alive goes by.
use vstd::prelude::*;
use std::collections::HashMap;
use crate::json::Json;
use crate::message::{Message, MessageView, Status, reply_with};
use crate::text::same_text;

verus! {

broadcast use vstd::std_specs::hash::group_hash_axioms;

/// Milliseconds without any exchange after which the agent is pinged.
pub const PING_INTERVAL_MS: u64 = 20000;

/// Whether no exchange happened for a full ping interval before `now`.
pub open spec fn ping_is_due<P>(s: InnerView<P>, now: u64) -> bool {
    now >= s.last_activity && now - s.last_activity >= PING_INTERVAL_MS
}

/// What the keep-alive does at a tick.
#[derive(Debug)]
pub enum KeepaliveStep {
    /// The connection is lost: end the keep-alive.
    Stop,
    /// Nothing to do until the next tick.
    Wait,
    /// Send a ping.
    Ping,
}

/// Outstanding requests of one agent connection. `P` is what waits for the
/// answer of a request. Ids are handed out from the most recently freed
/// one, or else counting up from 1; times are milliseconds on a clock that
/// never goes back.
pub struct Inner<P> {
    pending: HashMap<u64, P>,
    next_id: u64,
    free_ids: Vec<u64>,
    last_activity: u64,
}

pub struct InnerView<P> {
    pub pending: Map<u64, P>,
    pub next_id: u64,
    pub free_ids: Seq<u64>,
    pub last_activity: u64,
}

impl<P> View for Inner<P> {
    type V = InnerView<P>;

    closed spec fn view(&self) -> InnerView<P> {
        InnerView {
            pending: self.pending@,
            next_id: self.next_id,
            free_ids: self.free_ids@,
            last_activity: self.last_activity,
        }
    }
}

/// The id the next allocation hands out.
pub open spec fn allocated<P>(s: InnerView<P>) -> u64 {
    if s.free_ids.len() > 0 {
        s.free_ids.last()
    } else {
        s.next_id
    }
}

/// Whether an allocation is possible without the counter overflowing.
pub open spec fn can_allocate<P>(s: InnerView<P>) -> bool {
    s.free_ids.len() > 0 || s.next_id < u64::MAX
}

pub open spec fn after_alloc<P>(s: InnerView<P>) -> InnerView<P> {
    if s.free_ids.len() > 0 {
        InnerView { free_ids: s.free_ids.drop_last(), ..s }
    } else {
        InnerView { next_id: (s.next_id + 1) as u64, ..s }
    }
}

pub open spec fn after_release<P>(s: InnerView<P>, id: u64) -> InnerView<P> {
    InnerView { free_ids: s.free_ids.push(id), ..s }
}

pub open spec fn after_begin<P>(s: InnerView<P>, waiter: P, now: u64) -> InnerView<P> {
    let a = after_alloc(s);
    InnerView { pending: a.pending.insert(allocated(s), waiter), last_activity: now, ..a }
}

pub open spec fn after_settle<P>(s: InnerView<P>, id: u64, now: u64) -> InnerView<P> {
    InnerView { pending: s.pending.remove(id), last_activity: now, ..s }
}

pub open spec fn after_abandon<P>(s: InnerView<P>, id: u64) -> InnerView<P> {
    InnerView { pending: s.pending.remove(id), free_ids: s.free_ids.push(id), ..s }
}

/// The invariant of correct use: freed ids are distinct, every id handed
/// out or freed lies below the counter, and no id is both waiting and free.
pub open spec fn well_formed<P>(s: InnerView<P>) -> bool {
    &&& 1 <= s.next_id
    &&& s.free_ids.no_duplicates()
    &&& forall|i: int| 0 <= i < s.free_ids.len() ==> 1 <= #[trigger] s.free_ids[i] < s.next_id
    &&& forall|id: u64| #[trigger] s.pending.contains_key(id) ==> 1 <= id < s.next_id
    &&& forall|id: u64| #[trigger] s.pending.contains_key(id) ==> !s.free_ids.contains(id)
}

/// An id that is handed out and neither waiting nor free: its owner may free it.
pub open spec fn held<P>(s: InnerView<P>, id: u64) -> bool {
    &&& 1 <= id < s.next_id
    &&& !s.pending.contains_key(id)
    &&& !s.free_ids.contains(id)
}

/// An id that is handed out and not free: its request is waiting for an
/// answer, or its owner still holds it.
pub open spec fn in_flight<P>(s: InnerView<P>, id: u64) -> bool {
    &&& 1 <= id < s.next_id
    &&& !s.free_ids.contains(id)
}

impl<P> Inner<P> {
    /// The table is always well formed: the methods below only free ids
    /// that are handed out and not already free.
    #[verifier::type_invariant]
    spec fn inv(self) -> bool {
        well_formed(self@)
    }

    /// No request outstanding, the last exchange at `now`.
    pub fn new(now: u64) -> (r: Self)
        ensures
            r@.pending == Map::<u64, P>::empty(),
            r@.next_id == 1,
            r@.free_ids == Seq::<u64>::empty(),
            r@.last_activity == now,
            well_formed(r@),
    {
        Inner { pending: HashMap::new(), next_id: 1, free_ids: Vec::new(), last_activity: now }
    }

    /// Moves the fields out, leaving an empty table behind.
    fn take_parts(&mut self) -> (r: (HashMap<u64, P>, u64, Vec<u64>, u64))
        ensures
            r.0@ == old(self)@.pending,
            r.1 == old(self)@.next_id,
            r.2@ == old(self)@.free_ids,
            r.3 == old(self)@.last_activity,
            well_formed(old(self)@),
    {
        proof {
            use_type_invariant(&*self);
        }
        let mut whole = Inner::new(0);
        std::mem::swap(self, &mut whole);
        let Inner { pending, next_id, free_ids, last_activity } = whole;
        (pending, next_id, free_ids, last_activity)
    }

    /// Hands out an id: the most recently freed one, or the next unused one.
    /// It is neither waiting for an answer nor left free.
    pub fn alloc_id(&mut self) -> (r: u64)
        requires
            can_allocate(old(self)@),
        ensures
            r == allocated(old(self)@),
            final(self)@ == after_alloc(old(self)@),
            !old(self)@.pending.contains_key(r),
            held(final(self)@, r),
            well_formed(final(self)@),
    {
        proof {
            use_type_invariant(&*self);
            lemma_begin_fresh(self@, arbitrary::<P>(), 0);
            lemma_alloc_well_formed(self@);
        }
        let (pending, mut next_id, mut free_ids, last_activity) = self.take_parts();
        let id = match free_ids.pop() {
            Some(id) => id,
            None => {
                let id = next_id;
                next_id = next_id + 1;
                id
            },
        };
        *self = Inner { pending, next_id, free_ids, last_activity };
        id
    }

    /// Whether an id can be handed out without the counter overflowing.
    pub fn can_allocate(&self) -> (r: bool)
        ensures
            r == can_allocate(self@),
    {
        self.free_ids.len() > 0 || self.next_id < u64::MAX
    }

    /// Whether `id` is handed out and neither waiting nor free.
    pub fn is_held(&self, id: u64) -> (r: bool)
        ensures
            r == held(self@, id),
    {
        1 <= id && id < self.next_id && !self.pending.contains_key(&id) && !self.is_free(id)
    }

    /// Whether `id` is handed out and not free.
    pub fn is_in_flight(&self, id: u64) -> (r: bool)
        ensures
            r == in_flight(self@, id),
    {
        1 <= id && id < self.next_id && !self.is_free(id)
    }

    fn is_free(&self, id: u64) -> (r: bool)
        ensures
            r == self@.free_ids.contains(id),
    {
        let n = self.free_ids.len();
        let mut i: usize = 0;
        while i < n
            invariant
                n == self@.free_ids.len(),
                i <= n,
                forall|j: int| 0 <= j < i ==> self@.free_ids[j] != id,
            decreases n - i,
        {
            if self.free_ids[i] == id {
                return true;
            }
            i = i + 1;
        }
        false
    }

    /// Returns an id its owner holds, for reuse; the next id handed out is
    /// this one.
    pub fn free_id(&mut self, id: u64)
        requires
            held(old(self)@, id),
        ensures
            final(self)@ == after_release(old(self)@, id),
            allocated(final(self)@) == id,
            well_formed(final(self)@),
    {
        proof {
            use_type_invariant(&*self);
            lemma_release_held(self@, id);
        }
        let (pending, next_id, mut free_ids, last_activity) = self.take_parts();
        free_ids.push(id);
        *self = Inner { pending, next_id, free_ids, last_activity };
    }

    /// Registers a new outstanding request: allocates its id, records its
    /// waiter, and counts as an exchange at `now`. The id differs from
    /// that of every request still waiting for an answer.
    pub fn begin_request(&mut self, waiter: P, now: u64) -> (r: u64)
        requires
            can_allocate(old(self)@),
        ensures
            r == allocated(old(self)@),
            final(self)@ == after_begin(old(self)@, waiter, now),
            !old(self)@.pending.contains_key(r),
            final(self)@.pending.contains_key(r) && final(self)@.pending[r] == waiter,
            well_formed(final(self)@),
    {
        proof {
            use_type_invariant(&*self);
            lemma_begin_fresh(self@, waiter, now);
        }
        let id = self.alloc_id();
        let (mut pending, next_id, free_ids, _) = self.take_parts();
        pending.insert(id, waiter);
        *self = Inner { pending, next_id, free_ids, last_activity: now };
        id
    }

    /// A response with `id` arrived at `now`: hands back the waiter of that
    /// request, if it is still outstanding.
    pub fn settle(&mut self, id: u64, now: u64) -> (r: Option<P>)
        ensures
            final(self)@ == after_settle(old(self)@, id, now),
            match r {
                Some(w) => old(self)@.pending.contains_key(id) && w == old(self)@.pending[id],
                None => !old(self)@.pending.contains_key(id),
            },
            well_formed(final(self)@),
    {
        proof {
            use_type_invariant(&*self);
            lemma_settle_keeps_well_formed(self@, id, now);
        }
        let (mut pending, next_id, free_ids, _) = self.take_parts();
        let r = pending.remove(&id);
        *self = Inner { pending, next_id, free_ids, last_activity: now };
        r
    }

    /// Gives up request `id` (no answer will be awaited) and frees its id.
    pub fn abandon(&mut self, id: u64)
        requires
            in_flight(old(self)@, id),
        ensures
            final(self)@ == after_abandon(old(self)@, id),
            well_formed(final(self)@),
    {
        proof {
            use_type_invariant(&*self);
            lemma_abandon_keeps_well_formed(self@, id);
        }
        let (mut pending, next_id, mut free_ids, last_activity) = self.take_parts();
        pending.remove(&id);
        free_ids.push(id);
        *self = Inner { pending, next_id, free_ids, last_activity };
    }

    /// Whether no exchange happened for a full ping interval before `now`.
    pub fn ping_due(&self, now: u64) -> (r: bool)
        ensures
            r == ping_is_due(self@, now),
    {
        now >= self.last_activity && now - self.last_activity >= PING_INTERVAL_MS
    }

    /// The keep-alive's decision at a tick at `now`: stop once the
    /// connection is reported lost; otherwise ping when one is due, and
    /// wait for the next tick when none is.
    pub fn keepalive_step(&self, disconnected: bool, now: u64) -> (r: KeepaliveStep)
        ensures
            r is Stop <==> disconnected,
            r is Ping <==> !disconnected && ping_is_due(self@, now),
    {
        if disconnected {
            KeepaliveStep::Stop
        } else if self.ping_due(now) {
            KeepaliveStep::Ping
        } else {
            KeepaliveStep::Wait
        }
    }

    /// Closes request `id` once its requester is done with it: the id is
    /// freed when the answer came; otherwise the request is given up.
    pub fn finish_request(&mut self, id: u64, answered: bool)
        requires
            if answered { held(old(self)@, id) } else { in_flight(old(self)@, id) },
        ensures
            final(self)@ == if answered {
                after_release(old(self)@, id)
            } else {
                after_abandon(old(self)@, id)
            },
            well_formed(final(self)@),
    {
        if answered {
            self.free_id(id);
        } else {
            self.abandon(id);
        }
    }

    /// Closes keep-alive ping `id` after `outcome`. Returns whether the
    /// connection is still alive: only an answered ping keeps it so.
    pub fn finish_ping(&mut self, id: u64, outcome: PingOutcome) -> (alive: bool)
        requires
            if outcome is Answered { held(old(self)@, id) } else { in_flight(old(self)@, id) },
        ensures
            alive == (outcome is Answered),
            final(self)@ == if alive {
                after_release(old(self)@, id)
            } else {
                after_abandon(old(self)@, id)
            },
            well_formed(final(self)@),
    {
        match outcome {
            PingOutcome::Answered => {
                self.free_id(id);
                true
            },
            _ => {
                self.abandon(id);
                false
            },
        }
    }

    /// Whether request `id` still awaits its answer.
    pub fn is_pending(&self, id: u64) -> (r: bool)
        ensures
            r == self@.pending.contains_key(id),
    {
        self.pending.contains_key(&id)
    }
}

/// Handing out an id keeps the table well formed.
proof fn lemma_alloc_well_formed<P>(s: InnerView<P>)
    requires
        well_formed(s),
        can_allocate(s),
    ensures
        well_formed(after_alloc(s)),
        held(after_alloc(s), allocated(s)),
{
    let a = after_alloc(s);
    let id = allocated(s);
    lemma_begin_fresh(s, arbitrary::<P>(), 0);
    let b = after_begin(s, arbitrary::<P>(), 0);
    assert forall|x: u64| #[trigger] a.pending.contains_key(x) implies !a.free_ids.contains(x) by {
        assert(b.pending.contains_key(x));
    }
    assert forall|x: u64| #[trigger] a.pending.contains_key(x) implies 1 <= x < a.next_id by {
        assert(b.pending.contains_key(x));
    }
}

/// Answering (or dropping) a request keeps the table well formed.
pub proof fn lemma_settle_keeps_well_formed<P>(s: InnerView<P>, id: u64, now: u64)
    requires
        well_formed(s),
    ensures
        well_formed(after_settle(s, id, now)),
{
    let t = after_settle(s, id, now);
    assert forall|x: u64| #[trigger] t.pending.contains_key(x) implies !t.free_ids.contains(x) by {
        assert(s.pending.contains_key(x));
    }
    assert forall|x: u64| #[trigger] t.pending.contains_key(x) implies 1 <= x < t.next_id by {
        assert(s.pending.contains_key(x));
    }
}

/// How a keep-alive ping ended.
#[derive(Debug)]
pub enum PingOutcome {
    /// It could not be sent.
    SendFailed,
    /// The agent answered in time.
    Answered,
    /// No answer came in time, or the connection went away.
    TimedOut,
}

/// What a message received from an agent is.
#[derive(Debug)]
pub enum Inbound {
    /// A pushed `execution_stream` request: forward it and acknowledge `id`.
    ExecutionStream { id: u64 },
    /// The answer to request `id`.
    Reply { id: u64 },
    /// A pushed request of any other action: ignored.
    UnknownPush,
}

pub open spec fn inbound_of(m: MessageView) -> Inbound {
    match m {
        MessageView::Request { id, action, .. } => if action == "execution_stream"@ {
            Inbound::ExecutionStream { id }
        } else {
            Inbound::UnknownPush
        },
        MessageView::Response { id, .. } => Inbound::Reply { id },
    }
}

/// Classifies a message received from an agent.
pub fn classify_inbound(msg: &Message) -> (r: Inbound)
    ensures
        r == inbound_of(msg@),
{
    match msg {
        Message::Request { id, action, .. } => if same_text(action.as_str(), "execution_stream") {
            Inbound::ExecutionStream { id: *id }
        } else {
            Inbound::UnknownPush
        },
        Message::Response { id, .. } => Inbound::Reply { id: *id },
    }
}

/// The acknowledgement of a pushed `execution_stream` request.
pub fn stream_ack(id: u64) -> (r: Message)
    ensures
        r@ == reply_with(id, Status::Success, 200, "Received execution_stream"@, None),
{
    Message::Response {
        id,
        status: Status::Success,
        code: 200,
        message: String::from_str("Received execution_stream"),
        data: None,
    }
}

/// The keep-alive request: action `ping` with an empty object.
pub fn ping_request(id: u64) -> (r: Message)
    ensures
        r@ matches MessageView::Request { id: rid, action, data } && rid == id && action == "ping"@
            && (data matches Some(Json::Object(e)) && e@.len() == 0),
{
    Message::Request {
        id,
        action: String::from_str("ping"),
        data: Some(Json::Object(Vec::new())),
    }
}

/// A fresh table is well formed.
pub proof fn lemma_new_well_formed<P>(now: u64)
    ensures
        well_formed(InnerView {
            pending: Map::<u64, P>::empty(),
            next_id: 1,
            free_ids: Seq::<u64>::empty(),
            last_activity: now,
        }),
{
}

/// In a well-formed table, a new request gets an id that no outstanding
/// request has and that is not left on the free list; its waiter is
/// recorded under that id, the other requests are untouched, and the
/// table stays well formed.
pub proof fn lemma_begin_fresh<P>(s: InnerView<P>, waiter: P, now: u64)
    requires
        well_formed(s),
        can_allocate(s),
    ensures
        !s.pending.contains_key(allocated(s)),
        !after_alloc(s).free_ids.contains(allocated(s)),
        after_begin(s, waiter, now).pending.contains_key(allocated(s)),
        after_begin(s, waiter, now).pending[allocated(s)] == waiter,
        forall|other: u64| #[trigger] s.pending.contains_key(other) ==>
            after_begin(s, waiter, now).pending.contains_key(other)
            && after_begin(s, waiter, now).pending[other] == s.pending[other],
        well_formed(after_begin(s, waiter, now)),
{
    let id = allocated(s);
    let a = after_alloc(s);
    if s.free_ids.len() > 0 {
        let n = s.free_ids.len() - 1;
        assert(s.free_ids[n] == id);
        if s.pending.contains_key(id) {
            assert(s.free_ids.contains(id));
        }
        if a.free_ids.contains(id) {
            let k = choose|k: int| 0 <= k < a.free_ids.len() && a.free_ids[k] == id;
            assert(s.free_ids[k] == s.free_ids[n]);
        }
        assert forall|i: int| 0 <= i < a.free_ids.len() implies 1 <= #[trigger] a.free_ids[i] < a.next_id by {
            assert(a.free_ids[i] == s.free_ids[i]);
        }
        assert(a.free_ids.no_duplicates()) by {
            assert forall|i: int, j: int| 0 <= i < a.free_ids.len() && 0 <= j < a.free_ids.len() && i != j
                implies a.free_ids[i] != a.free_ids[j] by {
                assert(a.free_ids[i] == s.free_ids[i]);
                assert(a.free_ids[j] == s.free_ids[j]);
            }
        }
        let b = after_begin(s, waiter, now);
        assert forall|x: u64| #[trigger] b.pending.contains_key(x) implies !b.free_ids.contains(x) by {
            if x != id {
                assert(s.pending.contains_key(x));
                if b.free_ids.contains(x) {
                    let k = choose|k: int| 0 <= k < b.free_ids.len() && b.free_ids[k] == x;
                    assert(s.free_ids[k] == x);
                    assert(s.free_ids.contains(x));
                }
            }
        }
    } else {
        let b = after_begin(s, waiter, now);
        assert forall|x: u64| #[trigger] b.pending.contains_key(x) implies !b.free_ids.contains(x) by {
            assert(b.free_ids.len() == 0);
        }
    }
}

/// Freeing an id that its owner holds keeps the table well formed, and
/// the next request reuses that id.
pub proof fn lemma_release_held<P>(s: InnerView<P>, id: u64)
    requires
        well_formed(s),
        held(s, id),
    ensures
        well_formed(after_release(s, id)),
        allocated(after_release(s, id)) == id,
{
    let r = after_release(s, id);
    assert(r.free_ids.last() == id);
    assert forall|i: int| 0 <= i < r.free_ids.len() implies 1 <= #[trigger] r.free_ids[i] < r.next_id by {
        if i < s.free_ids.len() {
            assert(r.free_ids[i] == s.free_ids[i]);
        }
    }
    assert(r.free_ids.no_duplicates()) by {
        assert forall|i: int, j: int| 0 <= i < r.free_ids.len() && 0 <= j < r.free_ids.len() && i != j
            implies r.free_ids[i] != r.free_ids[j] by {
            if i == s.free_ids.len() {
                assert(r.free_ids[j] == s.free_ids[j]);
            } else if j == s.free_ids.len() {
                assert(r.free_ids[i] == s.free_ids[i]);
            } else {
                assert(r.free_ids[i] == s.free_ids[i]);
                assert(r.free_ids[j] == s.free_ids[j]);
            }
        }
    }
    assert forall|x: u64| #[trigger] r.pending.contains_key(x) implies !r.free_ids.contains(x) by {
        if r.free_ids.contains(x) {
            let k = choose|k: int| 0 <= k < r.free_ids.len() && r.free_ids[k] == x;
            if k < s.free_ids.len() {
                assert(s.free_ids[k] == x);
                assert(s.free_ids.contains(x));
            }
        }
    }
}

/// Answering a request hands back exactly the waiter that was recorded
/// for it; no request stays waiting on that id afterwards, and the table
/// stays well formed.
pub proof fn lemma_settle_returns_waiter<P>(s: InnerView<P>, waiter: P, now: u64, later: u64)
    requires
        well_formed(s),
        can_allocate(s),
    ensures
        ({
            let b = after_begin(s, waiter, now);
            let id = allocated(s);
            &&& b.pending.contains_key(id) && b.pending[id] == waiter
            &&& !after_settle(b, id, later).pending.contains_key(id)
            &&& well_formed(after_settle(b, id, later))
            &&& held(after_settle(b, id, later), id)
        }),
{
    lemma_begin_fresh(s, waiter, now);
    let b = after_begin(s, waiter, now);
    let id = allocated(s);
    let t = after_settle(b, id, later);
    assert(!b.free_ids.contains(id));
    assert forall|x: u64| #[trigger] t.pending.contains_key(x) implies !t.free_ids.contains(x) by {
        assert(b.pending.contains_key(x));
    }
}

/// Giving up a request that is waiting or held keeps the table well
/// formed: the request no longer waits, and its id is the next handed out.
pub proof fn lemma_abandon_keeps_well_formed<P>(s: InnerView<P>, id: u64)
    requires
        well_formed(s),
        in_flight(s, id),
    ensures
        well_formed(after_abandon(s, id)),
        !after_abandon(s, id).pending.contains_key(id),
        allocated(after_abandon(s, id)) == id,
{
    let t = InnerView { pending: s.pending.remove(id), ..s };
    assert(held(t, id));
    assert forall|x: u64| #[trigger] t.pending.contains_key(x) implies !t.free_ids.contains(x) by {
        assert(s.pending.contains_key(x));
    }
    lemma_release_held(t, id);
    assert(after_release(t, id) == after_abandon(s, id));
}

/// A whole request, from sending to its answer: the answer reaches the
/// waiter recorded when it was sent, and once the requester closes the
/// request the table is well formed again and the next request reuses
/// the id.
pub proof fn lemma_request_round_trip<P>(s: InnerView<P>, waiter: P, sent: u64, answered: u64)
    requires
        well_formed(s),
        can_allocate(s),
    ensures
        ({
            let id = allocated(s);
            let b = after_begin(s, waiter, sent);
            let t = after_settle(b, id, answered);
            let done = after_release(t, id);
            &&& b.pending[id] == waiter
            &&& well_formed(done)
            &&& !done.pending.contains_key(id)
            &&& allocated(done) == id
            &&& done.last_activity == answered
        }),
{
    lemma_settle_returns_waiter(s, waiter, sent, answered);
    let id = allocated(s);
    let t = after_settle(after_begin(s, waiter, sent), id, answered);
    lemma_release_held(t, id);
}

/// Every response from an agent answers the request with its id, whatever
/// its status, code or text; a pushed request is forwarded only when it is
/// an `execution_stream`.
pub proof fn lemma_every_response_is_a_reply(
    id: u64,
    status: Status,
    code: u16,
    text: Seq<char>,
    data: Option<Json>,
    action: Seq<char>,
)
    ensures
        inbound_of(MessageView::Response { id, status, code, text, data }) == (Inbound::Reply { id }),
        action == "execution_stream"@ ==> inbound_of(MessageView::Request { id, action, data })
            == (Inbound::ExecutionStream { id }),
        action != "execution_stream"@ ==> inbound_of(MessageView::Request { id, action, data })
            == Inbound::UnknownPush,
{
}

} // verus!
