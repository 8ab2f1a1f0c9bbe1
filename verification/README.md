# raft_transport

The decisions of a store server's Raft transport, verified with Verus: where a message for
another store goes, when a store's address is asked for, what the local store is told when a
peer cannot be reached or a snapshot has been sent, and what is counted on the way.

- `src/` is the library. Handlers take state and what happened, and return the effects to
  perform. `laws.rs` states what holds over every run.
- `app/` keeps the state behind a lock that clones share, performs the effects and hands the
  answers back. The channels, connections, resolver, snapshot worker and counters it performs
  them with are traits there, for a server to implement.
- `tests/` runs the library on concrete messages.
