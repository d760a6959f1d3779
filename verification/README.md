# saltyrtc_client

A SaltyRTC client whose protocol logic is verified with Verus.

`src/` holds the library. It decides and computes only; what it does is stated in `requires` /
`ensures` contracts over a mathematical model of the signaling.

- `lib.rs`: the builder, the client, close codes.
- `host.rs`: the host that a URL names.
- `connection.rs`: what to do with websocket messages, during the handshake and in the task loop.
- `protocol.rs`: the signaling of initiators and responders.
- `protocol/model.rs`: the model that the contracts of the signaling speak of.
- `protocol/laws.rs`: laws of the signaling, such as that no message is accepted twice and that
  no nonce is used twice.
- `protocol/`: sequence numbers, cookies, nonces, messages, states, peer contexts.
- `boxes.rs`, `crypto.rs`, `errors.rs`, `task.rs`, `text.rs`: boxes, keys, errors, tasks, texts.

Three things are taken on trust: what `Url::parse` makes of a text (`connection.rs`), what
`Duration::as_secs` returns (`protocol.rs`), and that `rmpv::Value` is a type (`boxes.rs`).

`app/` connects the library with the network, with libsodium and with tasks. It draws the random
values, opens and seals the boxes, and turns messages into MessagePack and back.

`tests/` runs the library on concrete values.
