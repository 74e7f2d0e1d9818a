# lodestone_core

The core of the Lodestone game-server manager, as a library whose rules are
stated as contracts and proved with Verus.

- `src/` — the verified library:
  - `auth/` — users, their rights and the users store (every change is written
    by a step the caller supplies and undone when writing fails), password
    hashes, file-access rules for instance files and uploads, bearer tokens;
  - `events.rs`, `event_processor.rs` — events, their filters, and the
    dispatch of parsed console lines to callbacks;
  - `minecraft/` — server properties and command-line settings (with their
    manifest entries and round trips), console-line parsing, the players of a
    running server, versions and flavours, the setup form and the start
    command, Fabric and Java runtime downloads, macros and macro tasks;
  - `generic/` — the procedure calls of scripted instances and their start
    script;
  - `handlers.rs` — the decisions of the HTTP interface;
  - `text.rs`, `matching.rs` — text helpers and the regular-expression calls.
- `tests/` — tests of the library on concrete values.
- `app/` — what talks to the outside world: files, JSON, login tokens,
  process output and callback threads.
