# uring-mqtt

An MQTT 3.1.1 and 5.0 ingest broker for sensor readings, with its logic verified
in Verus.

- `src/` is the library: the codecs as far as the broker needs them, the
  handshake, the decision on each packet, the session from the first byte to the
  close, the event channel's counts, the workers' life from the startup barrier to
  the end of the drain, the buffer pool, the configuration. Its logic is verified.
  The calls into outside crates and the standard library stand in wrappers whose
  contracts are trusted. `src/laws/` states what holds of several functions
  together.
- `app/` is the broker at work on `monoio`: sockets, timers, threads and logs. It
  does what the library's state machines ask for and tells them how it went.
- `tests/` runs the library with the outside crates it calls.

Bytes are decoded and encoded by `rmqtt-codec`, buffers are those of `bytes`, and
events wait in a `local-sync` channel. What the library relies on of them is said
at each call, in `src/buffer.rs`, `src/codec/parse.rs`, `src/codec/types.rs`,
`src/codec/wire.rs` and `src/record/`. The last of these keeps, beside the clock and
the ends of the channels, a record of what went through them, so that a contract can
say on which end a function sent what.

A session is driven like this:

1. `Session::new` waits for the protocol version.
2. Do the read or write that is asked for, under the deadline of
   `Session::remaining_nanos`.
3. Hand the outcome to `Session::step`. Log its note, pass its event on, and go on
   with what it asks for next, until it says that the session is finished.
