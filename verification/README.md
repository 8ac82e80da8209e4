# prose_pod_server

The Prose Pod Server's logic as a Verus-verified library.

- `src/` is the library. Every function there carries a contract that
  Verus proves; the few calls into `sha2`, `hex`, `base64`, `http` and `std` that
  cannot be proved are trusted wrappers, each documented where it stands.
- `tests/` runs the library on concrete values.
- `app/` is the command-line program around it: it loads `prose.toml`
  with `figment`, converts documents with `serde_json`, and prints what the
  server would start with, or filters an analytics event.
