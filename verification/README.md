# soksak_sidecar_browser_chromium

A Chromium engine module for a host application: browsers as native children of the host's window,
or rendered offscreen and shown on surfaces of the module's own, on macOS, Windows and Linux.

- `src/` holds what the module decides, written and proved in Verus: the request protocol, the
  queues and the message pump, creating and closing browsers, input, page queries, offscreen
  surfaces and their buffers, the frame stream, and the end-to-end harness's run. A function takes
  the state, what was reported and the time; it returns the next state and what is to be done.
  `src/laws.rs` and `src/ids.rs` state what holds across functions.
- `app/` holds what touches the outside: the C interface, the native engine's handlers, native
  views and textures, files and sockets, and the harness's window.
- `tests/` runs the library on concrete values.

What is stated and not proved: `serde_json` reads and writes documents, `jpeg_encoder` encodes
frames, and of the standard library `String::from_utf8_lossy` reads bytes as text (`text::lossy`) and
the `Debug` form of a string quotes it (`text::quoted`). The library calls each behind a small function
of its own.
