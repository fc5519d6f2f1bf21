# codex_support

Verified building blocks for Codex: the fragments in which available skills enter a model's
context, the skills section of a configuration, the diagnostics of a WebSocket's transport, and a
probe that holds a WebSocket open and tells how it fares.

- `src/` is the library. Every function states what it returns or changes, and Verus proves it.
  Two private functions are taken on trust: `redacted_uri::parse_uri`, which reads a URI with the
  `http` crate, and `probe_proxy::parse_url`, which reads a URL with the `url` crate.
- `tests/` runs the library on concrete values.
- `app/` is ordinary Rust around the library: sockets, clocks, logging, environment variables and
  configuration files.

`skill_chunks` proves that a body cut into fragments is kept in full and that no fragment is too
large; `transport_history` proves that the account of a connection says what happened to it.
