# lobster-waku-gateway (verified core)

The decision logic of the Lobster Waku HTTP gateway, written in Verus and
proved against its contracts.

- `src/` is the verified library: request routing, query-string parsing,
  CLI addresses, JSON replies, the outcome-to-reply decisions of the route
  handlers, and the governance state (seeding, world safety defaults,
  published snapshots, merging with a mirror's snapshot, loading a stored
  snapshot), with the laws that relate them in `governance.rs` and
  `order.rs`.
- `tests/` runs the library on concrete inputs.
- `app/` is the unverified edge: serde copies of the governance records,
  reading and writing the governance state file, fetching a mirror's world
  snapshot with ureq, and the tiny_http adapters.
