# hest

The message handling of a small XMPP chat bot, written in Verus.

- `src/handler.rs` — messages, actions, the `Handler` trait and the `Router`, which hands a
  message to the first handler that wants it.
- `src/echo.rs` — the `@echo` handler.
- `src/command.rs`, `src/due.rs` — reading `@reminder` commands (`add <date> <time> <message>`,
  `list`, `delete <id>`); dates and times are read by `chrono` and shown as `%Y-%m-%d %H:%M`.
- `src/reminder.rs`, `src/store.rs` — reminders, journal records, and the store, whose contents
  always equal the replay of its append-only journal.
- `src/reminder_handler.rs` — the `@reminder` handler as a two-step state machine: `process`
  answers or asks for a journal record to be written; `complete` takes the write's outcome.
- `src/config.rs` — the configuration and its defaults.
- `src/rooms.rs` — which configured rooms are joined (those `xmpp`'s JID parser accepts, in
  order), with which status, and which room messages are shown.
- `src/text.rs` — string operations (trim, prefix, split at the first space) with exact specs.
- `app/` — the program: reading files, the TOML and JSON forms, the journal file, and the
  XMPP event loop.
