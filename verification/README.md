# ws_pool

A generic `WebSocket` pool: one handler owns many workers (connections), hands
out their ids, routes what the workers and the user send it, and decides how
each worker connects.

- `src/` is the library, verified with Verus. `handler.rs` holds the table of
  workers (`HandlerContext`) and the routing of the handler's loop;
  `worker/` holds a worker's context, what a read of its socket yields, and the
  routing of its loop; `ws.rs` decides where and how to connect and builds the
  handshake request; `event_loop.rs` holds `EventLoopAction`; `channel.rs`
  declares the tokio channels the parts talk over.
- `app/` is the async side: the handler's and the workers' tasks, the
  sockets, TLS, the `http::Request` built from the library's handshake
  request, and copies of the error types with `Display`.
- `tests/` exercises the library with the real tokio, url and http crates.
