# PasteFile

A file-sharing service without user accounts: files are uploaded, reached
under a random code, protected by an optional secret, limited in downloads and
removed when they expire. This crate is its core, written in Verus and proved
against its contracts.

Layout:

- `src/database` — the records of stored files and the expiry index that the
  garbage collector works through (`Database`, with its model `DatabaseView`).
- `src/service` — uploading, downloading, describing and deleting a file.
- `src/util` — secrets and their argon2 hashes, the `Authorization` header,
  file names, QR codes, paths on disk.
- `src/error.rs` — the errors of the service and how each is answered.
- `src/configure`, `src/config.rs`, `src/index.rs` — settings, the addresses
  derived from them, CORS origins, the TLS key and certificates read from PEM
  text, the home page.
- `src/cli` — the command line tool's option parsers and bookkeeping.
- `src/laws.rs` — properties that span several operations.
- `src/text.rs` — character-level helpers.
- `app/` — the HTTP server around the core: settings files, `sled` storage,
  axum routes and the garbage collector loop.
- `tests/` — tests of the library.

Not in this crate: the command line tool's HTTP client, its ChaCha20-Poly1305
encryption and its binary, the browser front-end, and image QR codes (the
server answers a request for one with a QR code error).
