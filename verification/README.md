# polymarket_core

The decisions of a Polymarket client, verified with Verus.

- `src/ctf`: the client of the conditional tokens contract. It says which contract takes
  which call, and turns receipts and failures into answers.
- `src/ws`: a WebSocket connection that is kept open. The connection loop, the handler of
  an open connection and its heartbeat are state machines: they take an event and say what
  to do next. The handle that users hold, and the channels behind it, are here too.
- `src/text.rs`: numbers and bytes as text.
- `laws.rs`, in both directories: what holds of the whole.
- `app`: the asynchronous code that performs the contract calls and runs the connections.

`rustls` and `idna_adapter` are named in `Cargo.toml` to choose what other crates build on:
the first for its cryptography, the second for a small table of international host names.
