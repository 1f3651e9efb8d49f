# franchisetech connector

A local connector that opens a cash drawer through a network ESC/POS receipt
printer, on behalf of the franchisetech web till.

- `src/` is the library, verified with Verus: configuration and its defaults,
  request authorisation (origin, pairing token), pairing, the drawer command
  decision and its answers, the rate limit, diagnostics, the event log, status
  and health answers, and the decisions of the desktop window. `src/laws.rs`
  holds the properties that relate several functions.
- `app/main.rs` is the headless HTTP server on `127.0.0.1:17878` (axum, tokio):
  it holds the shared state behind locks, reads requests, opens the TCP
  connection to the printer, reads and writes the configuration file and turns
  the library's answers into JSON.
- `tests/` exercises the library on concrete values.
