# kairo

The timer core of Kairo, a local-first focus timer for the desktop, written in
Verus. The timer owns the session, its focus and break steps and the real
intervals of running time; focus time counts only running intervals.

Layout:

- `src/models.rs`, `src/snapshot.rs`: sessions, steps, intervals and the
  snapshot that the user interface renders.
- `src/state.rs`: the abstract engine state and every transition as a spec
  function; `src/engine.rs`: the executable engine, each operation proved
  equal to its transition; `src/laws.rs`: what every operation keeps (the
  engine invariant, pause/resume/break accounting, completion).
- `src/windows.rs`, `src/tray.rs`, `src/notifications.rs`, `src/text.rs`:
  mini timer rules and the texts of tray and notifications.
- `src/persistence.rs`, `src/lifecycle.rs`: stored rows and what is stored
  when a session runs, pauses, completes or is dropped.
- `src/kde.rs`: KDE/Wayland detection for the keep-above script.
- `src/clock.rs`, `src/ids.rs`: the wall clock and fresh ids, the two
  places where the library reads the outside world.
- `app/`: the desktop shell (Tauri commands, tray, windows, SQLite).
