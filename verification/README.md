# kick_rust

A client library for Kick.com chat, with its logic verified by Verus.

- `src/` is the verified library: the message parser (Pusher frames to typed
  chat events), the JSON readers of API responses and pages, the User-Agent
  rotation and browser fingerprints, the raw message buffer, the Pusher
  session state machine, the connection settings and request headers, and the
  retry, strategy and cache decisions of the HTTP client. Calls into
  `serde_json`, `regex`, `url`, `flate2`, `brotli`, `rand` and `chrono` sit
  behind small trusted wrappers whose contracts are stated next to them.
- `app/` is the unverified shell: the WebSocket connection (tokio and
  tokio-tungstenite), the HTTP requests (reqwest and curl), the handler
  registry, and the loops that perform what the library's state machines
  decide.
- `tests/` runs the library on concrete inputs.
