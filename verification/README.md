# anticounterfeit

The verified core of an NFC anti-counterfeit service.

Two kinds of tag are supported:

- **Dynamic tags** sign every scan with AES-CMAC over their UID and an
  increasing counter, under a key derived per tag and key version from a
  master secret. A scan is accepted once per counter; a reused or lower
  counter is a replay.
- **Static tags** carry a URL with a one-time token signed with HMAC-SHA256
  and bound to the product. The first scan consumes the token; later scans
  are replays, and revoked or expired tokens are refused.

Layout:

- `src/` — the library, verified with Verus: the token codec, the tag and
  token decisions, the in-memory stores with their atomic updates, the
  catalogue listing, access checks, error answers, and the reading of
  stored rows. The laws of the service as a whole are in `src/laws.rs`.
  Calls into the cryptography, encoding, time and UUID crates go through
  small trusted wrappers in `src/crypto.rs`, `src/bytes.rs` and
  `src/text.rs`.
- `tests/` — tests of the library on concrete values.
- `app/` — the HTTP server (axum), the SeaORM storage, the use cases that
  load and store records around the library's decisions, and the reset of
  the database schema.
