# clippy_awakens

The logic of the Clippy Awakens desktop overlay (an agent that reacts to
editor hook events delivered over HTTP), as a Verus-verified library.

- `src/events.rs`: the valid event types and how a request path names one.
- `src/sounds.rs`: the system sound (and alternatives) for each event, and the
  search for the first sound file that exists.
- `src/tray.rs`: the mute/visibility state, what each tray menu entry and tray
  click does to it, and the tray menu layout.
- `src/server.rs`: how a received event is handled against the tray state.
- `src/tracker.rs`: when a terminal window position update is emitted.
- `src/agents.rs`: the bundled and user agents offered.
- `src/config.rs`: configuration defaults and how each saved setting changes it.
- `src/screen.rs`: the rectangle spanning all monitors.
- `src/text.rs`: string helpers stated over character sequences.

`app/` is the desktop program around the library: the Tauri window and tray,
the axum HTTP server, sound playback with rodio, the Windows API window
lookup, and the JSON config file.
