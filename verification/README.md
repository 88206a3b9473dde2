# moq_transport_quiche

The core of a MoQ Transport server over QUIC, verified with Verus.

- `src/codec.rs` — the trusted boundary to the `moq-transport` crate's codec:
  decoders of control messages, CLIENT SETUP and data-stream headers, and encoders.
- `src/framing.rs` — the receive buffer: chunks are appended, a value is taken
  off the front only when the decoder finds a whole one.
- `src/control.rs` — the control stream's send and receive halves.
- `src/object.rs` — object streams: header encoding, and the receiver that holds
  at most one accepted stream until its header is read.
- `src/server.rs` — the listener's connection table and event rule, and the
  handshake from CLIENT SETUP to a session.
- `src/config.rs` — the transport settings.

`app/` holds the asynchronous I/O around the core: the quiche-based WebTransport
server and a front that dispatches between the quinn and quiche stacks.
