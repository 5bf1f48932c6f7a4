# winter-paintboard-sdk

A client library for the Winter Paintboard API (a shared 1000 x 600 pixel
board painted over a binary WebSocket protocol), whose logic is verified with
Verus.

- `src/` is the verified library: the board model, the binary protocol
  (single messages and sticky packets), paint-request encoding and batching,
  the delayed-packet queue, the response tracker, reconnection backoff, the
  connection-state decisions of the WebSocket actor, paint-result statistics,
  the circuit breaker, pool bookkeeping and the HTTP request/response logic.
  Public proof functions named `law_*` state the properties that hold across
  calls (round trips of the protocol, what a board read gives back after a
  write, that batching loses nothing, the closed form of the backoff, ...).
- `app/` is the runtime around it: `tokio` tasks, `tokio-tungstenite` and
  `reqwest` I/O, the `governor` rate limiter, the event bus, global statistics
  and the `serde` / `thiserror` copies of library types.
- `tests/` exercises the library on concrete values.
