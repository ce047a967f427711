# manager_handlers

A microservice framework: handlers registered by name answer HTTP requests,
talk to each other over an in-process message bus (publish and dispatch), and
to other services over Redis pub/sub.

The decisions of the framework are written in Verus and proved against their
contracts; the networking around them is ordinary async Rust.

## Layout

- `src/` — the verified library.
  - `communication/multibus.rs` — the bus: a queue per address, first in
    first out, and a pool of workers that bounds what waits to be taken.
  - `communication/pub_sub.rs` — publish and dispatch over the bus, publish
    numbers and private reply addresses.
  - `traits.rs` — what a handler decides around its work: reading the answer
    to a publish, turning bus messages and Redis requests into jobs, what is
    sent back, the replicas of a handler, and the plans of Redis traffic.
  - `routes/` — the replies of the HTTP routes and the API-key check.
  - `security/cert.rs` — the allowed-name check of client certificates.
  - `manager.rs` — settings, the register of handlers, and the server plan.
  - `states.rs` — the shared state and the Redis request.
  - `json.rs`, `text.rs` — JSON texts (printed and parsed by serde_json) and
    decimal numerals.
- `app/` — the async runtime around the library: actix-web routes, the tokio
  listeners, Redis connections, TLS set-up, and the `Base` trait handlers
  implement.
- `tests/` — tests of the library.
