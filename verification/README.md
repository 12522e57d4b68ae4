# bootkeeper

A Windows autostart manager: it lists what starts with Windows (registry
Run/RunOnce values, startup folders, scheduled tasks), rates each entry with
a deterministic rule engine, and disables, enables, removes, adds and
restores entries through an elevated helper that only acts after the user
confirms a dialog showing facts it read itself. Every write is backed by a
snapshot for undo, and each successful write prunes the snapshots older than
seven days.

## Layout

- `src/` — the library, verified with Verus: the model, the rule engine,
  item ids, snapshot naming/ordering/retention, registry value decoding, the
  plans behind each write operation and the results they report, the
  helper's decisions and the texts it shows. Laws such as "enable undoes
  disable", "ids parse back into their parts" and "a missing signature never
  lowers the risk" are stated and proved as proof functions.
- `app/` — the program around it: the command line, the MCP server, the
  elevated helper, and the Windows calls (registry, shell folders, Task
  Scheduler, WinVerifyTrust, the confirmation dialog).
- `tests/` — tests of the library.
