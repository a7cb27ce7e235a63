# openlaunch

Verified core of the OpenLaunch launchpad backend: the block-progress bookkeeping and
retry decisions of the on-chain event observer, and the request checks, parsers and
text builders of the REST API. Every executable function under `src/` carries a
`requires` / `ensures` contract. Verus proves it for all of them except the few
trusted wrappers marked `#[verifier::external_body]`: the calls into `dashmap`
(`progress_map`), `bigdecimal` (`numeric`), `http` header validation (`cors`) and
`str::to_uppercase` / `str::to_lowercase` (`trade`, `auth`). Their contracts state what the
called functions are documented or written to do, and nothing is proved of their bodies.

Layout:

- `src/` — the library (Verus).
  - `event_core`, `observer_error`, `retry` — event types and their dependency graph,
    error classes, the retry decision for event handlers.
  - `progress_map`, `stream_sync`, `receive_sync` — per-event-type block progress of the
    polling and the processing side, dependency gating, the block that is safe to persist.
  - `swap`, `receive` — swap amounts and sides, pool lookup, per-event receiver decisions.
  - `numeric`, `project` — decimals read with `bigdecimal`; preparing a new project
    (symbol check, amounts, allocations in basis points).
  - `builder` — milestone counts, current milestone and dashboard figures of a project.
  - `auth`, `middleware`, `cors`, `query` — sign-in messages, session cookies, client
    address, allowed origins, query parameters.
  - `metadata`, `milestone`, `upload`, `trade` — request validation, id parsing, image
    sniffing, chart intervals and trade directions.
  - `text`, `decimal` — character-level string helpers and integer parsing/printing.
- `tests/` — tests of the library's public functions.
- `app/` — plain Rust around the library: HTTP plumbing, the asynchronous retry and
  receive loops, floating-point prices, and serde forms of the library's types.

Not in this repository: the database and Redis access, the HTTP routers and handlers,
the RPC polling and log decoding of the observer, and the programs' `main` functions.
They are built on the workspace's shared crate (its types, database controllers, Redis
client and contract bindings) and on `alloy`, neither of which is part of this
repository; `app/` therefore is a library of the glue that does not depend on them.
