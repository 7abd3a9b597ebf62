//! The open client connections, by connection id, and who a broadcast
//! reaches.
use vstd::prelude::*;
use std::collections::HashMap;
use vstd::std_specs::hash::spec_keys_iter;
use vstd::std_specs::iter::IteratorSpec;

verus! {

broadcast use vstd::std_specs::hash::group_hash_axioms;

/// The open connections. `T` is what a message for a connection is
/// handed to.
pub struct ConnectionRegistry<T> {
    connections: HashMap<u64, T>,
}

impl<T> View for ConnectionRegistry<T> {
    type V = Map<u64, T>;

    closed spec fn view(&self) -> Map<u64, T> {
        self.connections@
    }
}

/// The connections a broadcast reaches: all of them, but `exclude`.
pub open spec fn audience(connected: Set<u64>, exclude: Option<u64>) -> Set<u64> {
    match exclude {
        Some(x) => connected.remove(x),
        None => connected,
    }
}

impl<T> ConnectionRegistry<T> {
    /// No connection open.
    pub fn new() -> (r: Self)
        ensures
            r@ == Map::<u64, T>::empty(),
    {
        ConnectionRegistry { connections: HashMap::new() }
    }

    /// Records connection `id`, replacing an earlier one with that id.
    pub fn register(&mut self, id: u64, tx: T)
        ensures
            final(self)@ == old(self)@.insert(id, tx),
    {
        self.connections.insert(id, tx);
    }

    /// Forgets connection `id`.
    pub fn unregister(&mut self, id: u64)
        ensures
            final(self)@ == old(self)@.remove(id),
    {
        self.connections.remove(&id);
    }

    /// Where messages for connection `id` go.
    pub fn get(&self, id: u64) -> (r: Option<&T>)
        ensures
            match r {
                Some(t) => self@.contains_key(id) && *t == self@[id],
                None => !self@.contains_key(id),
            },
    {
        self.connections.get(&id)
    }

    /// The connections a broadcast that leaves out `exclude` reaches, each once.
    pub fn recipients(&self, exclude: Option<u64>) -> (r: Vec<u64>)
        ensures
            r@.to_set() == audience(self@.dom(), exclude),
            r@.no_duplicates(),
    {
        let mut out: Vec<u64> = Vec::new();
        let ghost keys = spec_keys_iter(&self.connections).remaining();
        for k in it: self.connections.keys()
            invariant
                it.seq() == keys,
                keys.unref().to_set() == self.connections@.dom(),
                keys.no_duplicates(),
                out@.no_duplicates(),
                forall|x: u64| out@.contains(x) <==> (exists|i: int| 0 <= i < it.index() && *keys[i] == x
                    && exclude != Some(x)),
        {
            let id = *k;
            let keep = match exclude {
                Some(x) => id != x,
                None => true,
            };
            proof {
                assert forall|i: int| 0 <= i < it.index() implies *keys[i] != id by {
                    assert(keys[i] != keys[it.index()]);
                }
            }
            let ghost before = out@;
            if keep {
                out.push(id);
            }
            proof {
                if keep {
                    assert(!before.contains(id));
                    assert(out@.no_duplicates()) by {
                        assert forall|a: int, b: int| 0 <= a < out@.len() && 0 <= b < out@.len() && a != b
                            implies out@[a] != out@[b] by {
                            if a == before.len() {
                                assert(before.contains(out@[b]));
                            } else if b == before.len() {
                                assert(before.contains(out@[a]));
                            } else {
                                assert(out@[a] == before[a]);
                                assert(out@[b] == before[b]);
                            }
                        }
                    }
                }
                assert forall|x: u64| out@.contains(x) <==> (exists|i: int| 0 <= i < it.index() + 1 && *keys[i] == x
                    && exclude != Some(x)) by {
                    if out@.contains(x) {
                        let j = choose|j: int| 0 <= j < out@.len() && out@[j] == x;
                        if j < before.len() {
                            assert(before[j] == x);
                            assert(before.contains(x));
                        } else {
                            assert(*keys[it.index()] == x);
                        }
                    }
                    if exists|i: int| 0 <= i < it.index() + 1 && *keys[i] == x && exclude != Some(x) {
                        let i = choose|i: int| 0 <= i < it.index() + 1 && *keys[i] == x && exclude != Some(x);
                        if i == it.index() {
                            assert(out@[out@.len() - 1] == x);
                        } else {
                            assert(before.contains(x));
                            let j = choose|j: int| 0 <= j < before.len() && before[j] == x;
                            assert(out@[j] == x);
                        }
                    }
                }
            }
        }
        proof {
            assert forall|x: u64| out@.to_set().contains(x) <==> audience(self@.dom(), exclude).contains(x) by {
                if keys.unref().to_set().contains(x) {
                    let i = choose|i: int| 0 <= i < keys.len() && keys.unref()[i] == x;
                    assert(*keys[i] == x);
                }
                if out@.contains(x) {
                    let i = choose|i: int| 0 <= i < keys.len() && *keys[i] == x && exclude != Some(x);
                    assert(keys.unref()[i] == x);
                    assert(keys.unref().contains(x));
                }
            }
            assert(out@.to_set() =~= audience(self@.dom(), exclude));
        }
        out
    }
}

/// A change to the table of open connections.
pub enum TableChange<T> {
    Register(u64, T),
    Unregister(u64),
}

/// The table after a run of changes, in order.
pub open spec fn apply_changes<T>(table: Map<u64, T>, changes: Seq<TableChange<T>>) -> Map<u64, T>
    decreases changes.len(),
{
    if changes.len() == 0 {
        table
    } else {
        let next = match changes[0] {
            TableChange::Register(k, t) => table.insert(k, t),
            TableChange::Unregister(k) => table.remove(k),
        };
        apply_changes(next, changes.drop_first())
    }
}

/// Whether a change concerns connection `id`.
pub open spec fn concerns<T>(c: TableChange<T>, id: u64) -> bool {
    match c {
        TableChange::Register(k, _) => k == id,
        TableChange::Unregister(k) => k == id,
    }
}

/// A connection registered under an id no open connection has keeps its
/// entry while other connections come and go, and unregistering it leaves
/// exactly the table those other changes alone would have made: it adds
/// or removes no other connection.
pub proof fn lemma_connection_isolated<T>(table: Map<u64, T>, id: u64, tx: T, changes: Seq<TableChange<T>>)
    requires
        !table.contains_key(id),
        forall|i: int| 0 <= i < changes.len() ==> !concerns(#[trigger] changes[i], id),
    ensures
        apply_changes(table.insert(id, tx), changes).contains_key(id),
        apply_changes(table.insert(id, tx), changes)[id] == tx,
        apply_changes(table.insert(id, tx), changes).remove(id) == apply_changes(table, changes),
    decreases changes.len(),
{
    if changes.len() > 0 {
        let rest = changes.drop_first();
        assert forall|i: int| 0 <= i < rest.len() implies !concerns(#[trigger] rest[i], id) by {
            assert(rest[i] == changes[i + 1]);
        }
        assert(!concerns(changes[0], id));
        let (with, without) = match changes[0] {
            TableChange::Register(k, t) => (table.insert(id, tx).insert(k, t), table.insert(k, t)),
            TableChange::Unregister(k) => (table.insert(id, tx).remove(k), table.remove(k)),
        };
        assert(with =~= without.insert(id, tx));
        lemma_connection_isolated(without, id, tx, rest);
    } else {
        assert(table.insert(id, tx).remove(id) =~= table);
    }
}

} // verus!
