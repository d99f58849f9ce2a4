# cql

A client library for the Cassandra CQL binary protocol, version 3, written in
Verus. The library encodes request frames and decodes response frames; the public
functions state in their contracts what they return — and, for readers, where
the reader is left, on success and on failure — and Verus proves it.

Layout of `src/`:

- `codes.rs` — consistency levels, column types and opcodes, with their wire
  codes in both directions and the round-trip lemmas.
- `wire.rs` — big-endian integers, and the calls into `byteorder` and
  `String::from_utf8` that read and write them.
- `error.rs` — errors, faults (inputs the decoder gives up on), and the
  step-by-step decoding model in which contracts are written.
- `reader.rs` — a reader over bytes with the primitive protocol fields.
- `value.rs` — column values and their mathematical values.
- `model.rs` — the decoding model of metadata, rows and response frames, and
  its lemmas.
- `response.rs` — decoded responses and their decoders.
- `request.rs` — request frames and their encoding.

`app/` holds the TCP client: it opens the connection, writes the encoded
requests and reads frames off the socket for the library to decode.
