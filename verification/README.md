# studigo

The core of a small capture-and-compose studio, written in Verus: video
frames, scenes and layouts, a compositor that keeps the latest frame of each
source, capture sources (screen, fake colour bars, USB/UVC, WiFi/RTSP,
Bluetooth control), a virtual camera filter with its DirectShow-style control
interfaces, and the decisions of the clip-stitching editor: reading paths,
ffprobe reports and model replies, ordering the clips, and chaining the
crossfades.

Layout:

- `src/` — the verified library. Each public function carries a contract over
  a mathematical view of its types; the properties that relate several calls
  (what a push makes a later read return, what registering or removing a
  source does to the others, what a started filter accepts, ...) are public
  proof functions named `law_*`. Calls into outside crates (the clock,
  `image`, `serde_json`, `base64`, string conversions of std) stand behind small
  trusted wrappers whose doc comments say what is assumed of them.
- `tests/` — executable tests of the library.
- `app/` — the program around it: device access (`rusb`, `nokhwa`), network
  and file I/O, running FFmpeg and the Ollama models, the floating-point
  timing of an edit and pixel blending, and the user-interface commands.
