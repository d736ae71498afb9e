# worktimer

A small work timer for the Linux desktop: it lives in the system tray, records work
sessions and their start, pause, resume and stop events in a local SQLite database, warns
when the user has been idle, and pauses the timer when the warning goes unanswered.

The library under `src/` is verified with Verus:

- `timer` — the timer's state machine, the writes each operation makes to the store, the
  recovery of the timer from the queries it makes and their answers, and a proof, over the ghost journal of writes
  (a model of the store, not the SQLite file itself), that recovery from what the timer wrote
  gives the timer back.
- `sql` — the calls into rusqlite, and the ghost log they keep: the database opened, the
  statements run with their parameters, and the queries answered with their keys and answers.
- `database` — the session store: what each operation hands to SQLite and makes of its answer,
  stated over that log, a ghost journal of the writes made, and the accounting of a session's
  active time from its events.
- `state` — the decisions of the application: how tray actions, ticks, idle readings and
  notification answers move the timer and the idle monitor, and what is shown in answer.
- `clock`, `config`, `notifications`, `idle`, `cli`, `text` — instants and their RFC 3339 text,
  settings and the desktop launcher entry, notification texts and answers, idle states,
  command-line commands, and text helpers.

`app/` holds the program around it: files and directories, logging, the X11 idle reading, the
desktop notifications, the tray icon and the event loop.
