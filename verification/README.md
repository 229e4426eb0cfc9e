# animus_transport_http

The REST transport of the Animus daemon, as a verified library.

- `src/json.rs` — a JSON model holding values as plain data; an object
  means the map its entries build.
- `src/handlers/mod.rs` — statuses, replies, the success and error
  envelopes, `wire_response` and the connection decision.
- `src/handlers/flow.rs` — the course of one request (connect, decide,
  call, answer) as a step function, with its laws.
- `src/handlers/{agent,daemon,plugin,subject,workflows}.rs` — each
  route's decision on its request: the wire call to make, or the refusal.
- `app/` — the axum handlers, which connect to the control socket, perform
  the wire calls and render the replies.
