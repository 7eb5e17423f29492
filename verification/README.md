# render_service

A service that takes stick-figure files, renders each to a PNG, and serves the
pictures under addresses made from the SHA-256 digest of the file.

- `src/` is the verified library. `form` finds the file in a
  submitted form, `upload` is the state machine of an upload,
  `ident` names files, `links` says where they are kept and served, `serve` and
  `pages` hold the answers, `frame` and `readback` lay out what goes to and comes
  from the GPU, `png` encodes, and `store` states what the service promises
  across requests.
- `app/` is the HTTP server and the GPU work around it.
- `tests/` runs the library on concrete values.
