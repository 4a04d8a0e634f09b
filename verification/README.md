# actors

A small actor framework. Actors own a mailbox, exchange messages through
`ActorRef`s, reply through an `ActorContext`, and reach actors in other
processes through a JSON wire envelope carried over ZeroMQ.

## Layout

- `src/` — the verified library (Verus), generic over the message payload
  type `M`:
  - `actor.rs` — envelopes, local and remote actor references, the reply
    context, the `Actor` trait and the per-actor runtime (one loop turn at a
    time).
  - `mailbox.rs` — the std channel ends behind a mailbox and an inbox; each
    end carries the identity of the queue it belongs to.
  - `names.rs` — `NameMap`, values keyed by distinct names.
  - `manager.rs` — thread configuration, the termination handle, and the
    manager's registry and lifecycle messages.
  - `group.rs` — a thread-pool group: its members, lifecycle messages and
    the decision each queue consumer takes per poll.
  - `remote.rs` — remote references, framing of outgoing messages, the
    registry of local actors, endpoint normalization, the per-endpoint socket
    plan of the sending thread, and the decision taken for each incoming
    message (deliver, reject back to the sender, or drop).
  - `serialization.rs` — the registry of message types allowed on the wire.
  - `text.rs`, `wire.rs`, `message.rs`, `messages.rs` — pattern replacement,
    wire values, the `Message` trait and the built-in messages.
- `app/` — the threaded runtime around it: boxed `Any` messages, serde JSON
  at the sockets, threads for managed actors, groups and timers, and the ZMQ
  sender and receiver loops.
- `tests/` — tests of the library.
