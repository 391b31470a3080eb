# lattice_storage

Storage of lattice state in NATS key-value buckets.

The library decides what a storage engine does: in which bucket and under which key the state of a
lattice is kept, which requests a read, a write or a deletion sends to the key-value service, and
what each answer means. It does no input or output. An operation is a value: it names its
outstanding request, takes the reply, and ends in a result. Verus proves the contract of every
function but those in `src/outside.rs`, which call other crates and are believed.

- `src/engine.rs`, `src/store.rs`, `src/state.rs`, `src/config.rs`, `src/error.rs`: the engine, its
  traits and its types
- `src/read.rs`, `src/write.rs`, `src/delete.rs`, `src/bucket.rs`, `src/service.rs`,
  `src/operation.rs`: the operations and what they ask of the service
- `src/auth.rs`, `src/connect.rs`: how to log in and connect
- `src/laws.rs`: what holds of the operations whatever the service answers
- `src/model.rs`: what comes of them on a service that keeps what it is given
- `src/outside.rs`: what the proofs rely on from other crates
- `app/`: the asynchronous engine, which carries the requests out with `async-nats`
