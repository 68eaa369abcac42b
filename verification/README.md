# trading_ws_types

Shared types for the Trading API WebSocket protocol, with proved contracts.

- `src/` — the library. `request` (request ids and their decimal rendering),
  `error` (error codes, their numbers and texts, the `WSError` payload),
  `client` (client-to-server messages), `response` (order RPC acks and the
  sequencer's transaction status), `server` (server-to-client messages).
- `app/` — the wire side: copies of the message types with `serde` and
  `strum` derives and conversions to and from the library's types. The
  numeric encoding of error codes goes through the library's verified
  `ErrorCode::code` and `ErrorCode::from_code`.
- `tests/` — tests of the library.
