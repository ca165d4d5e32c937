# hadlock

A tiling and stacking window manager for X, split in two:

- `src/` is the library, verified with Verus: the geometry, the monitors,
  workspaces and their clients, the floating and master-pane layouts, the
  reducers that answer each event of the X server, and the reactor that turns
  a change of state into effects on the X server. Every public function states
  in its contract what it returns or changes; `src/laws.rs` holds the
  properties that span several operations, and `src/keys.rs` what the
  default key bindings do.
- `app/` is the program around it: reading the JSON configuration, talking to
  the X server through `x11-dl`, logging, child processes and desktop
  notifications.

The clients of a workspace live in an `IndexMap`; the few calls into it are
the only trusted items, each with a contract over what the map holds
(`src/models/client_map.rs`), besides the two calls that read the clock that
stamps a newly managed window (`src/models/windowwrapper.rs`).
