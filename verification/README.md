# slint_agent_desktop

The verified core of an agent-first desktop application: an application
state that a human-facing window and automation agents share, a semantic UI
contract that agents inspect and act on, notes, localization, and the
transports through which agents reach the application.

Everything under `src/` is verified with Verus; `app/` is the process around
it (HTTP server, stdio tool server, file and SQLite repositories, runtime
files) and is ordinary Rust.

## Layout of `src/`

- `text.rs` — whitespace, trimming, decimal rendering over `Seq<char>`.
- `system.rs` — the current time, UUIDs and RFC 3339 text (trusted calls
  into `chrono` and `uuid`).
- `domain.rs` — identifiers, note title and body rules, notes, settings.
- `state.rs` — the application state, its actions and events, and the
  reducer (`reduce`, `apply_event_spec`).
- `store.rs` — the state store: revisions, refusals, subscribers.
- `service.rs`, `note_list.rs`, `repository.rs`, `rows.rs` — use cases,
  the repository boundaries, the in-memory repository and stored rows.
- `localization.rs` — the catalog of localized texts.
- `agent_ui.rs`, `agent.rs` — the semantic UI tree, UI actions and
  application commands, and the agent service over the store.
- `contract.rs` — the scanner of `agent-id` declarations in `.slint` sources.
- `protocol.rs`, `wire.rs`, `mcp.rs` — the HTTP endpoints and messages and
  the JSON-RPC tool server's decisions.
- `runtime.rs` — window geometry, the single-instance rule, window sync.
- `laws.rs` — properties that span several operations.
