# rustdar-egui

The state and the rules of a weather radar display's user interface, verified
with Verus: panes and their layouts, animation loops, cross-sections and 3D
views, layers and their controls, polling, presets, the Add-layer catalog, the
status bar, and the saved configuration.

- `src/` is the library. Quantities that a pointer, a radar or a file hands over
  are whole millionths (`measure::Measure`); coordinates on the ground and the
  positions of sliders keep every digit (`measure::Exact`). Moments of the day
  are `stamp::Stamp`, and instants are milliseconds on the monotonic clock,
  passed in by the caller.
- `app/` is what an application puts around it: egui drawing, clocks, the map
  widget's memory and the JSON config file.
- `tests/` runs the library on concrete values.

The interface's state is `gui::Gui`. Proof functions whose names begin with
`law_` state what holds across several functions.
