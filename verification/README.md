# mosaico-core

The platform-independent core of the Mosaico tiling window manager,
written in Verus: the functions in `src/` carry contracts that the
verifier proves. The exceptions are the few functions marked
`#[verifier::external_body]` in `src/config/sections.rs`, which hand a
TOML text to `toml_edit` and return its answer: their contracts are
trusted, and each one's doc comment says what it claims of `toml_edit`.

- `src/` — the library: rectangles and spatial navigation, the three
  tiling layouts (BSP, vertical stack, three columns), workspaces,
  actions and their text form, window events, IPC messages, version
  checks, the log line format, the PID file contents, and the configuration rules (themes and
  palettes, bar settings, keybindings, window rules, starter files, and
  the sections merged into a user's files).
- `tests/` — tests run against the compiled library.
- `app/` — the code around it: file and environment access, the log
  file, the PID file, the serde forms of the configuration, and the
  layouts configured with a floating-point split ratio.
