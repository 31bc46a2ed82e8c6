# felica-auth-server

A remote FeliCa authentication server. The server holds the long-term keys and
performs FeliCa Standard mutual authentication only; a separate client owns the
physical reader. For each step the server returns the command frame that the client
relays to the card, and takes the card's response with the next request. When the
authentication succeeds the client gets the ephemeral session material and the server
forgets the session.

- `src/` is the library, written in Verus: every decision about requests, sessions,
  services, keys and workers, with its contract and its proof. `src/laws.rs` states
  what holds of the server as a whole.
- `tests/` runs the library on concrete requests.
- `app/` is the program around it: command line, HTTP, locks, channels, worker threads,
  the clock, and the card layer by `felica-rs`.

What is taken on trust is marked `external_body` in `src/`: writing and reading
hexadecimal text with `hex`, and drawing a session id with `rand`.
