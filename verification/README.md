# mine

A Unix domain socket that is yours alone: a stale socket is replaced but
nothing else at the path is destroyed, the socket file is owner-only by
default, and a connecting peer is named and screened before a byte is read.

- `src/` is the library, verified with Verus. It decides: the plan of steps
  that binds or connects a socket under a `Config`, what may be removed at a
  socket path given what is found there, whether a peer is admitted, the
  refusal codes and their rendering, and the classified container a received
  frame lands in. `src/laws.rs` holds the properties stated across functions.
- `app/` performs what the library decides: files, sockets, peer credentials,
  framing over a stream, and refusals as `io::Error` values.
- `tests/` exercises the library on concrete values.
