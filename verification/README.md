# hyprdock

The logic of HyprDock, a dock for the Hyprland compositor, as a verified
library, with the GTK program around it.

- `src/` — the library, verified with Verus:
  - `config.rs`: the configuration, its documented defaults, and how the
    fields found in `config.toml` are completed with them;
  - `hypr.rs`: windows and events of the compositor, event routing, window
    lookup by class, the retry policy of the first window list;
  - `launcher.rs`: which installed applications are listed and which one is
    started for a name or a window class;
  - `ui/`: the dock's decisions — favorites (pin/unpin), the taskbar plan,
    the right-click menu, the launcher search, icon lookup and the auto-hide
    state machine;
  - `text.rs`: string helpers on characters (substring, replacement).
- `tests/` — tests of the library on concrete values.
- `app/` — the program: GTK widgets, the layer-shell window, the Hyprland
  socket, desktop entries through GIO, and the configuration file.
