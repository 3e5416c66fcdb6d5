# codex_pager

An adapter between a Codex app-server, which speaks JSON lines, and a terminal pager, which speaks
the Agent Client Protocol.

- `src/` is the verified library. `rpc` numbers requests and matches replies; `json` is the value
  that both sides exchange; `calls` writes the calls; `models`, `updates`, `questions` and `time`
  turn what the app-server says into what the pager shows; `agent`, `sessions` and `events` are the
  agent's state and what every request and every event does to it; `dialog` is the course of a
  question to the user; `logo` answers the welcome
  screen. `guarantees` states what holds across calls and over whole histories.
- `app/` runs the child process, the channels, the timers and the browser around it, and converts
  to the protocol's own types. The pager supplies a `PagerHost`.
- `tests/` runs the library on concrete values.

The library calls `serde_json`, `chrono`, `agent_client_protocol` and parts of `std` through declarations that state what is
relied on; each says so in its doc comment.
