# beatbridge

Bridge between Pioneer Pro DJ Link and Ableton Link: tempo, phase and transport
relayed from CDJs to Link (`master`), from Link to CDJs (`slave`), or both ways
with an echo guard (`bidirectional`).

Layout:

- `src/` — the verified library.
  - `sync_mode.rs`: the sync modes, their names and directions.
  - `engine.rs`: the decision core. `BridgeCore::step` takes an event from
    either network (or a Link poll, or a shutdown) and returns the actions to
    perform, against the state machine `BridgeCore::next`.
  - `engine_laws.rs`: properties of the core proved for every state and event
    (direction of each mode, tempo-master-only relaying, echo suppression,
    single relay of play-state changes, shutdown).
  - `bridge.rs`: echo guard timing, CDJ beat to Link beat mapping.
  - `display.rs`: master label, phase bar and status line.
  - `config.rs`: layering of command-line settings over the configuration file.
- `app/` — the program: command line and TOML parsing, the Pro DJ Link and
  Ableton Link sessions, the async event loop that feeds the core and performs
  its actions, floating-point tempo arithmetic, and the terminal display.
- `tests/` — tests of the library.
