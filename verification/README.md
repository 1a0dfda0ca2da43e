# fs_desktop

The state, rules and text handling behind the FreeSynergy desktop: its shell (header,
launcher, taskbar, notifications, sidebar), the settings sections, the help panel, the
Store's install wizard and package lists, the messaging bots, the container dependency
diagram and the system information widget.

- `src/` is the library, written in Verus. Every function that computes a result or
  changes state carries a contract (the lifecycle bus's `emit` and `app_*` only hand an
  event to the registered observers, whose effects are theirs), and the properties that
  span several functions are stated and proved as `law_*` proof functions next to the
  code they speak about.
- `tests/` runs the library on concrete values.
- `app/` holds what the library leaves to its host: reading and writing the TOML
  settings files, the HTTP call to the AI service, the clock, the system reports under
  `/proc`, and the values that are floating-point numbers (widget positions, resource
  percentages, animation speed).

Verify with `verus src/lib.rs --crate-type lib` and the outside crates named in
`Cargo.toml`.
