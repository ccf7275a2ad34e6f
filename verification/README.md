# lores_app_node

A LoRes app node and the websites app built on it, with its decision logic
verified in Verus.

- `src/` is the verified library: error mapping (`errors`), the reconnection
  backoff (`backoff`), the subscription loop's decisions (`subscription`),
  draining operation streams (`consumer`), publishing (`node`), the outbox's
  idempotency keys and delivery decisions (`outbox`, `text`), answers of the
  remote node (`grpc`), the projection database's schema hash and rebuild
  statements (`projection`), the websites app's operations, projection and
  handler decisions (`websites`, `static_sites`), and the realtime WebSocket
  session (`realtime`).
- `app/` is the server around it: SQLite and gRPC stores, tokio channels and
  loops, HTTP routes and the WebSocket handler. It performs the I/O and asks
  the library what to do next.
- `tests/` exercises the library on concrete values.
