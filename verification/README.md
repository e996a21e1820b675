# jalwa

A media player: a library of audio and video files, playlists, a play
queue, smart playlists and recommendations, M3U import and export, a
terminal interface, removable-device handling and an MCP server.

## Layout

- `src/` — the library, verified with Verus. It holds the player's logic
  with contracts: the media library and its search, playlists and the play
  queue, recommendations, smart playlists and library insights, the
  database rows and their conversions, the M3U format, the file-watcher and
  device-event decisions, the album-art cache, the control logic of the
  playback engine and the decisions of its audio and video decoder threads
  (commands, gapless switching, the near-end notice, stream selection), the
  key handling of the terminal interface and the desktop views' selection
  rules, the text renderings, the video container choice, and the MCP
  server's requests, their routing, and the tool list and answers.
- `tests/` — tests of the library.
- `app/` — the program around it: command line, SQLite, file scanning and
  tag reading, the file watcher, the audio and video decoder threads (which
  perform the library's decisions) and the floating-point DSP, the terminal
  drawing loop, the MCP server's line I/O and JSON answers, and the device
  monitor.

Calls into other crates (uuid, chrono, serde_json, tarang, std's path and text
functions, yukti) that the library's logic makes go through small wrappers
whose contracts say what the library relies on.

## Collections

Where a collection is keyed by an id, the library keeps it in a `Vec`
whose invariant says that no key occurs twice: the album-art cache (its
textures and the items without art), the device manager's devices and the
tallies of the library insights. Their logic walks every entry (the art
cache's least-recently-used eviction takes the entry with the smallest
access value, the insights sort their tallies), and the order in which a
`HashMap` or `HashSet` is walked is left open by the standard library and
by its specifications in vstd; over a `Vec` with that invariant the same
behaviour is stated and proved, eviction and ordering included.
