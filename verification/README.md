# dotboard

The message plane of a terminal dashboard's background daemon.

- `src/` is the library, verified with Verus: module and message tags, the
  layout of a frame (module tag, message tag, payload), the routing table that
  delivers a frame to the channel of the module it is addressed to, and the
  decisions the daemon, the dispatcher and the modules take per connection and
  per frame. `buffers.rs` and `channels.rs` hold the contracts given to the
  `bytes` and `tokio::sync` items the library calls.
- `app/` is the program around it: the Unix socket, the length-delimited
  codec, rkyv serialization, the runtimes and the async loops. Run it bare for
  the daemon, or with `client` for the client that sends a ping and a pong.
- `tests/` exercises the library on concrete values.
