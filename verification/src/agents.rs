//! The agents the server holds a live connection to.
use vstd::prelude::*;
use std::collections::HashMap;
use vstd::std_specs::hash::spec_keys_iter;
use vstd::std_specs::iter::IteratorSpec;
use crate::message::{Message, Status, error_reply};
use crate::text::{push_signed_decimal, signed_decimal};

verus! {

broadcast use vstd::std_specs::hash::group_hash_axioms;

/// The live connections, by agent id. `M` is the connection's manager.
pub struct AgentConnections<M> {
    connections: HashMap<i64, M>,
}

impl<M> View for AgentConnections<M> {
    type V = Map<i64, M>;

    closed spec fn view(&self) -> Map<i64, M> {
        self.connections@
    }
}

impl<M> AgentConnections<M> {
    /// No agent connected.
    pub fn new() -> (r: Self)
        ensures
            r@ == Map::<i64, M>::empty(),
    {
        AgentConnections { connections: HashMap::new() }
    }

    /// Records a new connection to `agent_id` unless one is already held,
    /// in which case the held one is kept. Returns whether it was recorded.
    pub fn connect(&mut self, agent_id: i64, manager: M) -> (r: bool)
        ensures
            r == !old(self)@.contains_key(agent_id),
            final(self)@ == after_connect(old(self)@, agent_id, manager),
    {
        if self.connections.contains_key(&agent_id) {
            false
        } else {
            self.connections.insert(agent_id, manager);
            true
        }
    }

    /// Drops the connection to `agent_id`. Returns whether there was one.
    pub fn disconnect(&mut self, agent_id: i64) -> (r: bool)
        ensures
            r == old(self)@.contains_key(agent_id),
            final(self)@ == old(self)@.remove(agent_id),
    {
        self.connections.remove(&agent_id).is_some()
    }

    /// The connection to `agent_id`.
    pub fn get(&self, agent_id: i64) -> (r: Option<&M>)
        ensures
            match r {
                Some(m) => self@.contains_key(agent_id) && *m == self@[agent_id],
                None => !self@.contains_key(agent_id),
            },
    {
        self.connections.get(&agent_id)
    }

    /// Whether `agent_id` is connected.
    pub fn is_connected(&self, agent_id: i64) -> (r: bool)
        ensures
            r == self@.contains_key(agent_id),
    {
        self.connections.contains_key(&agent_id)
    }

    /// The connected agents, each once, in no particular order.
    pub fn connected_agents(&self) -> (r: Vec<i64>)
        ensures
            r@.to_set() == self@.dom(),
            r@.no_duplicates(),
            r@.len() == self@.dom().len(),
    {
        let mut out: Vec<i64> = Vec::new();
        let ghost keys = spec_keys_iter(&self.connections).remaining();
        for k in it: self.connections.keys()
            invariant
                it.seq() == keys,
                keys.unref().to_set() == self.connections@.dom(),
                keys.no_duplicates(),
                keys.len() == self.connections@.dom().len(),
                out@.len() == it.index(),
                forall|i: int| 0 <= i < it.index() ==> out@[i] == *keys[i],
        {
            out.push(*k);
        }
        proof {
            assert(out@ =~= keys.unref());
            assert(keys.unref().no_duplicates()) by {
                assert forall|i: int, j: int| 0 <= i < keys.len() && 0 <= j < keys.len() && i != j
                    implies keys.unref()[i] != keys.unref()[j] by {
                    assert(keys[i] != keys[j]);
                }
            }
        }
        out
    }

}

/// The text of a failed lookup of an agent connection.
pub open spec fn not_connected_text(agent_id: i64) -> Seq<char> {
    "Agent "@ + signed_decimal(agent_id as int) + " not connected"@
}

/// The answer to a request for an agent that has no live connection.
pub fn agent_not_connected(agent_id: i64) -> (r: Message)
    ensures
        r@ == error_reply(503, not_connected_text(agent_id)),
{
    let mut text = String::from_str("Agent ");
    push_signed_decimal(&mut text, agent_id);
    text.append(" not connected");
    Message::new_response(Status::Error, None, 503, text)
}

/// The state after a connection to `agent_id` is offered: a new one is
/// recorded only when none is held.
pub open spec fn after_connect<M>(s: Map<i64, M>, agent_id: i64, manager: M) -> Map<i64, M> {
    if s.contains_key(agent_id) { s } else { s.insert(agent_id, manager) }
}

/// After a connection is offered, the agent is connected, to the offered
/// manager if it was not connected before and to its earlier one
/// otherwise; the other agents are untouched; after a disconnection the
/// agent is not connected.
pub proof fn lemma_connection_lifecycle<M>(s: Map<i64, M>, agent_id: i64, manager: M)
    ensures
        after_connect(s, agent_id, manager).contains_key(agent_id),
        !s.contains_key(agent_id) ==> after_connect(s, agent_id, manager)[agent_id] == manager,
        s.contains_key(agent_id) ==> after_connect(s, agent_id, manager)[agent_id] == s[agent_id],
        forall|other: i64| other != agent_id ==>
            (#[trigger] after_connect(s, agent_id, manager).contains_key(other) == s.contains_key(other)),
        !after_connect(s, agent_id, manager).remove(agent_id).contains_key(agent_id),
{
}

/// The connections after a run of offers, each handled as `connect` does.
pub open spec fn after_connects<M>(s: Map<i64, M>, offers: Seq<(i64, M)>) -> Map<i64, M>
    decreases offers.len(),
{
    if offers.len() == 0 {
        s
    } else {
        after_connects(after_connect(s, offers[0].0, offers[0].1), offers.drop_first())
    }
}

/// However many connections are offered, in whatever order, connecting
/// only adds: every agent connected before keeps its manager, every
/// offered agent ends up connected, and no other agent is.
pub proof fn lemma_connections_only_grow<M>(s: Map<i64, M>, offers: Seq<(i64, M)>)
    ensures
        forall|a: i64| #[trigger] s.contains_key(a) ==> after_connects(s, offers).contains_key(a)
            && after_connects(s, offers)[a] == s[a],
        forall|i: int| 0 <= i < offers.len() ==> after_connects(s, offers).contains_key(#[trigger] offers[i].0),
        forall|a: i64| #[trigger] after_connects(s, offers).contains_key(a) ==> s.contains_key(a) || exists|i: int|
            0 <= i < offers.len() && #[trigger] offers[i].0 == a,
    decreases offers.len(),
{
    if offers.len() > 0 {
        let t = after_connect(s, offers[0].0, offers[0].1);
        let rest = offers.drop_first();
        lemma_connections_only_grow(t, rest);
        let r = after_connects(s, offers);
        assert(r == after_connects(t, rest));
        assert forall|a: i64| #[trigger] s.contains_key(a) implies r.contains_key(a) && r[a] == s[a] by {
            assert(t.contains_key(a) && t[a] == s[a]);
        }
        assert forall|i: int| 0 <= i < offers.len() implies r.contains_key(#[trigger] offers[i].0) by {
            if i > 0 {
                assert(offers[i] == rest[i - 1]);
            } else {
                assert(t.contains_key(offers[0].0));
            }
        }
        assert forall|a: i64| #[trigger] r.contains_key(a) implies s.contains_key(a) || exists|i: int|
            0 <= i < offers.len() && #[trigger] offers[i].0 == a by {
            if !s.contains_key(a) && !t.contains_key(a) {
                let k = choose|k: int| 0 <= k < rest.len() && #[trigger] rest[k].0 == a;
                assert(offers[k + 1] == rest[k]);
            }
        }
    }
}

} // verus!
