# rfb

A small RFB (VNC) server whose protocol logic is verified with Verus.

- `src/` is the verified library:
  - `client_message.rs`: the wire format of client-to-server messages, an
    incremental decoder of the receive buffer and the step that takes a
    decoded message off it;
  - `server_message.rs`: the server-to-client messages (protocol version,
    security types and result, challenge, ServerInit, FramebufferUpdate);
  - `handshake.rs`: the opening handshake as a state machine of exchanges;
  - `session.rs`: the decisions of a running session (stop, note input,
    schedule and send frames) and of the stream reader;
  - `encoding.rs`: pixel encodings and their wire codes;
  - `wire.rs`: big-endian reads, made with the `byteorder` crate;
  - `server.rs`: the server builder.
- `app/main.rs` runs the server on tokio: sockets, tasks, channels and timers.
- `tests/` exercises the library on concrete bytes.
