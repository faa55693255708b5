# grok_modes

Verified core of a coding agent's terminal client: the ask-mode and
debug-mode lifecycles of a session, the slash commands that drive them, the
agent-backend choice (Grok or the Cursor agent) with its relaunch argument
list, the debug tools' answers (reading and filtering the NDJSON debug log,
waiting for the user's reproduction and verification), and the reasoning
effort menus offered by the Cursor agent.

- `src/` — the library, verified with Verus. Every operation has a contract
  over a mathematical model; the lifecycle laws (what survives a snapshot,
  that a buffered reminder is delivered once, that a deferred exit ends where
  an immediate one would, ...) are proof functions next to the code.
- `tests/` — tests run against the compiled library.
- `app/` — the I/O around it: the environment, reading and writing config
  and log files, running `cursor-agent status` and exec-ing a relaunch, and
  serde / clap forms of the library's types. Parsing (JSON log lines, the
  status output, TOML config text) happens in `src/`. The agent-protocol
  stdio bridge to the Cursor agent is not part of this crate; the library
  only builds its launch arguments.
