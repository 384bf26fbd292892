# Notion Pomodoro Tracker

An offline-first Pomodoro timer for GNOME that mirrors a Notion task
database locally, tracks focused work per task, and syncs counts, minutes
and page bodies back to Notion.

## Layout

- `src/` — the verified core (Verus). Every function carries a contract and
  is proved against it:
  - `domain/` — the timer state machine (times are ms since the epoch),
    tasks, sessions, sync snapshots;
  - `application/` — task edits, the timer service's credits, settings and
    their validation, and the sync rules plus `SyncRun`, which sequences a
    whole sync as a state machine of requests and answers;
  - `infrastructure/` — the Notion property mapping, Markdown ↔ Notion
    blocks, the client's retry/pacing/pagination policy, the store's schema
    and list query, the keyring entry;
  - `ui/` — what the window shows: labels, dropdown choices, rows, the
    Markdown styling of the description editor, messages;
  - `calendar.rs`, `collate.rs`, `json.rs`, `text.rs` — dates and instants,
    sorted string lists, the JSON tree, string helpers.
  Calls into `chrono`, `uuid` and `pulldown-cmark` go through small trusted
  wrappers whose contracts say what the crate returns (or name it).
- `app/` — the GTK4/libadwaita program around it: SQLite via `rusqlite`,
  HTTP via `ureq`, the keyring, notifications, and the widgets. It performs
  the I/O and hands the library plain values.
- `tests/` — tests of the library, including sync runs driven against an
  in-memory store and a scripted Notion.

Data lives in `~/.local/share/notion-pomodoro-tracker/app.db`.
