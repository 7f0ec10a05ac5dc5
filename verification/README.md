# Group Protocol Stack, verified

A layered, end-to-end encrypted group-messaging protocol family on top of
MLS (RFC 9420): one base protocol, GBP, provides framed, replay-protected,
AEAD-encrypted delivery; three sub-protocols provide message semantics for
text (GTP), audio (GAP) and signalling (GSP). SFrame protects audio end to
end.

The library in `src/` is written in Verus: its functions carry
`requires`/`ensures` contracts that Verus proves, and the properties that
span several calls (replay windows, the node's state machine and control
plane, the SFrame round trip, the framing formats) are stated as proof
functions next to the code they describe. Calls into `openmls`,
`chacha20poly1305`, `sframe`, `sha2`, `ciborium` and std's clock go through
small trusted wrappers: their contracts are believed, not proved, and say
only what those crates' sources show. Where an MLS result rests on the
group's secrets or on chance (the bytes of a commit, the value of an
exported key), the contracts name it rather than compute it.

Layout:

* `src/vocab` – shared vocabulary: stream classes, flags, opcodes, signal
  types, error registry, state machines, conformance classes.
* `src/base` – the GBP frame, control envelope and error object.
* `src/node.rs` – the group node: validation pipeline, replay high-water
  marks, control plane, coordinator election and timers.
* `src/mls` – the MLS member context, stream-key AEAD and the invite
  bundle.
* `src/gtp`, `src/gap`, `src/gsp` – the sub-protocol clients and their
  helpers (history, attachments, jitter buffer, roles, capabilities).
* `src/sframe` – SFrame key ids, sessions, encryptor and decryptor, and a
  standalone replay window.
* `src/transport.rs`, `src/report.rs` – wire framing and the plain records
  that bindings render.
* `app/` – the command-line runner, CBOR and Protocol Buffers wire forms,
  TCP and QUIC transports, and the C ABI.
* `tests/` – executable tests of the library.
