# adabraka_gpui

The platform-independent logic of the Adabraka GPUI framework, written in
Verus and proved against its contracts.

- `src/` is the verified library: resource budgets, window kinds and
  placement, X11 and Wayland window-manager state and hints, layer-shell
  protocol values, text shaping decisions (fallback-font spans, glyph
  runs, usable faces), global hotkey translation, tray menus and icons, GPU
  readback, accessibility tree building and the labels of its dumps, profiler bookkeeping,
  dispatcher queues and scheduling decisions, screen-capture termination.
- `tests/` exercises the library on concrete values.
- `app/` holds what the library leaves to the platform: pixel geometry in
  floating point, the process-wide profiler registry and its serialized
  form, conversions of X11 setup values and properties, the executable path
  of the tray, and the JSON dump of accessibility trees.
