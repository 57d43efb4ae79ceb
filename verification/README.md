# pipewire_wrapper

Data structures of the SPA layer of PipeWire, written in Verus with their contracts
proved: pods (the self-describing binary values that PipeWire exchanges), the
intrusive list, listener storage, buffer metadata and the I/O areas.

Every pod is a byte sequence: an 8-byte header (body size, type) followed by a body,
padded to 8 bytes. Every multi-byte number in a pod is stored little-endian, which is the
native byte order of the machines PipeWire runs on; the encoding does not follow the host's
byte order. The specification describes each pod kind by a spec function on
bytes, and each reader and writer is proved against it, so that reading what was written
gives the value back.

Layout:

- `src/listeners.rs` - listener storage with stable identifiers.
- `src/spa/list.rs` - a doubly linked list kept in an arena, with its ordering as ghost state.
- `src/spa/pod/` - pod kinds: primitive values, strings, bytes, arrays, structs, objects
  with typed properties, choices, sequences, and iterators over concatenated pods.
- `src/spa/buffers/` - buffers, chunks, data and metadata records as byte views.
- `src/spa/io.rs`, `src/spa/param.rs`, `src/spa/dict.rs`, `src/spa/type_.rs` - plain
  SPA structures and constants.
- `tests/` - tests run against the compiled library.
- `app/` - helpers that need what the verified library cannot hold: floating point
  values, durations, and `Debug` output built on the library's error messages.
