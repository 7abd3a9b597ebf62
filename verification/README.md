# core_lib

The management server of a fleet of task-running agents: clients talk to
it over WebSocket with JSON request/response messages; it keeps users and
agents in PostgreSQL and relays task, run and core operations to agents
over mutually authenticated TLS.

- `src/` is the verified library: the JSON and message model, the routing
  of client messages (authentication, authorisation, dispatch), the
  decisions of every request handler, the reading loop of a client
  connection as a state machine, the bookkeeping of agent connections, of
  open client connections and of outstanding agent requests (ids,
  waiters, keep-alive), the reading of agent replies, the signing and
  verification of login tokens and their lifetimes, and the reading of
  PEM certificates and keys.
- `app/` is the program around it: sockets, TLS, the database, the async
  tasks, and the serde forms of the messages and records.
- `tests/` exercises the library on concrete values.
