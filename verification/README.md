# dsvideo_passthrough

A small proxy that sits in front of Synology Video Station and lets the DS Video app play HEVC
files untouched instead of forcing a transcode that the NAS cannot handle.

- `src/` is the library, verified with Verus: which requests are changed and how, what the player
  is answered, which streams are served raw, what is logged, and the judgement of the end-to-end
  check. `src/laws.rs` states what holds of it as a whole.
- `app/` is the program around it: it listens, sends and prints. Started under the name
  `selftest` it runs the end-to-end check against a real NAS.
- `tests/` runs the library.

The library rests on what a few functions outside it do: reading and writing urlencoded
forms (`form_urlencoded`) and JSON (`serde_json`), unpacking gzip (`flate2`), two formats of the
`http` crate, which `axum` brings, and `String::push` and `String::from_utf8_lossy` of the
standard library. Each function has a declaration or a small wrapper of its own in the module that
needs it, and the comment and the contract there say what is believed of it. The wrappers for
`serde_json` are all in `src/json.rs`.
