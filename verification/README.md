# glazewm_window_info

A small Windows helper for GlazeWM: a global hotkey (`Ctrl+Alt+I`) runs
`glazewm query focused` and shows the focused window's process, class and title,
together with the whole response pretty-printed, in a window that lives in the tray.

- `src/` is the verified library: reading the query's output (`query`, over the
  `serde_json` calls in `json`), the window's state machine (`app_state`), the
  hotkey's one-query-at-a-time latch (`hotkey`), the tray menu (`tray`), the
  highlighting of the response (`layout`, `text`) and the icon (`icon`).
- `app/` is the program around it: the egui window, the tray icon, the hotkey
  registration, and running the GlazeWM CLI.
