# muka_taskswitch

A keyboard-driven window switcher for Windows: a hotkey brings up a list of
the open top-level windows at the right edge of the screen, typing filters
the list, and Enter brings the chosen window to the front.

`src/` is the verified library:

- `config` – the search filter and colour theme settings and their labels;
- `text` – character-sequence utilities (splitting, space removal,
  substring search, case folding through `str::to_lowercase`);
- `hotkey` – reading hotkey strings such as `Ctrl+Shift+Q` and turning
  them into `global_hotkey` hotkeys;
- `window` – the listed windows, their identifiers and display texts, and
  which top-level windows are listed at all;
- `filter` – the search over the window list;
- `order` – the stable ordering of the list by lowercased title;
- `switcher` – the switcher's selection, search and visibility state and
  the decisions it takes on events, frames and keys;
- `tray` – the tray menu and click decisions and the tray icon's pixels.

`app/` is the program around it: the event loop, OpenGL and egui drawing,
the Win32 calls, the settings file, the hotkey registration and the tray.
