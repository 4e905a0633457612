# codex_pulse

The logic of Codex Pulse, a desktop widget that shows Codex rate limits,
usage and system load, as a Verus-verified library, with the Tauri shell
around it in `app/`.

- `src/` — verified library
  - `taskbar`: placement of the compact widget, the detail panel and the
    taskbar dock; distances to rectangles.
  - `json`, `app_server`: the JSON values of the app-server protocol (read
    from its output lines with `serde_json`, behind a trusted wrapper), request
    ids and messages, and what each incoming line means for a request.
  - `provider`, `usage`: reading the account, the rate limits (ordered by
    window) and the daily usage (stably sorted by date); plan names and limit
    labels.
  - `alerts`: which usage notifications are due and the record that sends each
    at most once.
  - `system_monitor`: the bounded sample histories and the average frequency.
  - `executable`: the order of the places searched for the Codex executable,
    and the choice among the candidates found there.
  - `window_style`: the Win32 styles of the frameless popup and detail panel.
  - `logging`, `paths`, `clock`, `text`, `control`: log locations, path
    joining and calendar arithmetic (trusted wrappers over `std` and
    `chrono`), text routines, and the shell's small decisions.
- `tests/` — tests of the library.
- `app/` — the Tauri application, Win32 and Direct2D integration, process and
  file I/O, and floating-point figures.
