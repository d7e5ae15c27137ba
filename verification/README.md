# simple_doip

A verified implementation of Diagnostics over IP (ISO 13400-2).

`src/` is the library, checked by Verus:

- `messages/` — the generic header, every payload body, whole messages;
  `decode`/`encode` (into a growable vector) and `encode_into` (into a fixed
  buffer, with no allocation) with exact contracts over byte sequences, and the
  round-trip laws (`lemma_message_roundtrip`, `lemma_decoded_message_reencodes`).
- `framer.rs` — `try_frame`, which delimits one frame without interpreting it.
- `message_codec.rs` — the stream codec over a `bytes::BytesMut` buffer.
- `bare_metal_entity.rs` — a sans-io entity: UDP identification and status,
  TCP reassembly, routing activation, diagnostic message dispatch.
- `client_session.rs`, `client.rs`, `connection.rs` — a tester's request
  bookkeeping and decisions.
- `server.rs`, `connection_state.rs` — an entity server's decisions.
- `wire.rs` — big-endian primitives and the calls into `automotive_wire_codec`.

`app/` is the async side around it (tokio client and server, tokio-util codec,
the callback-driven bare-metal entity, error types with `Display`); it performs
I/O and asks the library what everything means. `tests/` exercises both the
wire format and the state machines on concrete values.
