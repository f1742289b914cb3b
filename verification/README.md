# llrt_web

The verified core of two pieces of a JavaScript runtime's web APIs:

- `src/algorithm_name.rs`, `src/subtle.rs`, `src/import_key.rs`,
  `src/subtle_stubs.rs`: the decisions of WebCrypto's `SubtleCrypto`
  helpers (algorithm-name normalisation, `BufferSource` checks and copies,
  the hash and digest of an RSA key, algorithm identifiers, how `importKey`
  reads key data and when it copies the bytes, and the operations that a
  limited crypto provider refuses), with the errors they raise.
- `src/transform_*.rs`: the `TransformStream` of the Streams standard as a
  state machine over plain values. Each algorithm takes the stream's state
  and what the JavaScript engine reported, and gives the next state, the
  transformer method to call with its arguments, and the effects (settle a
  promise, error or close a side) to perform, in order.
  `src/transform_laws.rs` proves what every operation keeps and how close,
  abort and cancel share one finish.

SHA-256, SHA-384 and SHA-512 digests come from the `sha2` crate (RustCrypto),
called through three trusted wrappers in `src/subtle.rs`: the runtime hashes
through a crypto-provider module of its own, which is not part of this
library, and `sha2` is a published implementation of these digests that
such a provider can use.

`app/` is the JavaScript side, on `rquickjs`: it turns script values into
the plain values the library takes, calls the transformer methods the
library names, performs the effects, and reaches the runtime's readable and
writable streams through a trait.
