# rustconnect

The logic of a screen-sharing client, verified with Verus.

- `src/` is the library. `text` models trimming, white-space removal and
  pattern removal over `Seq<char>`; `link` reads and writes invite links
  (`rustconnect://CODE`); `endpoint` builds the relay URLs; `pacing` times
  the capture loop; `capture` chooses what is captured and where the cursor
  is drawn; `imaging` decodes, scales, blends and encodes frames through the
  `base64` and `image` crates; `protocol` decides how the host's and the
  viewer's readers react to each message; `session` is the client's
  interactive state, one method per control; `laws` states properties that
  span several operations.
- `tests/` runs the library on concrete values.
- `app/` is the desktop program: window, capture, WebSocket and HTTP work,
  JSON of control packets, floating-point sliders and colour boost.
