# alleycat

Bridges let clients of the codex app-server protocol talk to other coding agents.
This crate is their verified core: what a bridge answers, keeps and sends is decided
here, in functions whose contracts Verus proves.

- `src/json*.rs`, `src/text*.rs`, `src/decode.rs`, `src/rpc.rs`: values, texts, tables
  and replies, with their models.
- `src/codex/`: the vocabulary of the protocol.
- `src/launch/`: which program is started, and with which environment.
- one directory under `src/` for each bridge, such as `src/droid/` and `src/hermes/`.
- `src/remote/`: supervision of the remote control of the app server.
- `src/conformance/`: the harness that holds a bridge against codex.
- `app/`: processes, files, sockets and clocks around the library.

Everything that waits is a state machine: the library says what to do next, `app/` does
it and reports what came of it. Names that belong to an installation, such as the name
of the assistant's program and of the family of models that Droid offers first, are
given by the caller.
