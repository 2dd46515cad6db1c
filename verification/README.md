# xplr state machine, verified

The state of a terminal file explorer and the rules that change it, written
in Verus: every public function carries a contract, and the laws of the state
machine are proved as proof functions.

- `src/history.rs`: the visited-path history (cursor, visits, stepping back and forth).
- `src/app.rs`: the explorer's state (`App`), one method per message, the
  message dispatch (`handle_external`, `handle_key`, `handle_task`), and the
  steps that ask the runner for file-system work (`Io`) and what follows
  that work (`directory_change_ended`, `listed`).
- `src/config.rs`: modes, key bindings, layouts, the configuration, which
  configuration files are read at start and what loading them gives.
- `src/explore.rs`: which nodes of a listing the active filters let through.
- `src/help_menu.rs`: the lines each mode shows in the help menu.
- `src/msg.rs`: the messages, filters, sorters and commands.
- `src/node.rs`, `src/input.rs`, `src/log.rs`, `src/help.rs`, `src/text.rs`:
  nodes and listings, keys and the input buffer, logs, help text, text helpers.
- `src/sets.rs`, `src/paths.rs`: the calls into `indexmap` and into `std::path`
  and `str`, behind contracts.
- `src/laws.rs`: laws that relate several operations.
- `app/lib.rs`: the runner: session directory, directory listing, changing the
  working directory, pipes.
