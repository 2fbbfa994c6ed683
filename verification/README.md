# aerowan

AeroWAN is a peer-to-peer mesh networking daemon that runs Reticulum and Iroh
(QUIC) transports side by side, with a local bearer-token REST API and a
terminal client for connecting to peers and chatting with them.

This crate holds the daemon's decisions as a Verus-verified library, and the
process around them (sockets, terminal, files, timers) as ordinary Rust.

## Layout

- `src/` — the verified library
  - `text.rs`: character-level string operations (trimming, prefixes, decimal
    and path formatting, UTF-8 byte prefixes)
  - `config.rs`: configuration sections, defaults, and where the configuration
    directory is looked for
  - `identity.rs`: API key and Iroh key files
  - `chat.rs`: the length-prefixed chat frame, its reader's decisions, the inbox
  - `transport.rs`: which Reticulum interfaces start, where Iroh binds
  - `api.rs`: bearer authorization and the answer of every REST endpoint
  - `json.rs`: JSON string lists through `serde_json`
  - `interfaces.rs`: detection and classification of network adapters
  - `tui.rs`: the terminal client's state machine
  - `screen.rs`: what the terminal client draws for a state
  - `laws.rs`: properties that hold across operations
- `tests/` — tests of the library
- `app/` — the daemon binary: Iroh and Reticulum transports, the axum API
  server, configuration file I/O, and the ratatui event loop
