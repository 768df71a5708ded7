# Tempo

Tempo is a local-first time tracker: people create projects, time work
sessions on them (with pause, an interrupting second session and recovery
after a crash), add a note when a session ends, review the recorded time by
day, week, month or year, and export it.

## Layout

- `src/` — the library, verified with Verus.
  - `domain/` — projects, completed tasks, the active and interrupted timers,
    and every change to them, with the laws they keep (`domain/laws.rs`).
  - `application.rs` — the tracker: the data plus the chosen range and the
    project under evaluation, and which operations must be saved.
  - `controller.rs` — the window's decisions: pages, status messages, the
    project editor, the first-run and export screens.
  - `presentation.rs` — the view models shown by the window.
  - `report.rs` — the export dataset and the Markdown report.
  - `menu.rs` — the native menu's layout and the command behind each entry.
  - `language.rs`, `text.rs`, `error.rs` — language choice, text helpers,
    error messages.
- `tests/` — tests of the library.
- `app/` — the program around it: the single-instance lock, SQLite storage,
  backups, and CSV/JSON export.
