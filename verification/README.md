# kojacoord_protocol

Minecraft Java Edition wire protocol types, verified with Verus.

The library reads and writes packets of many protocol versions (pre-netty 1.6
through 1.21), negotiates which typed packet family a client version uses,
maps packet names to ids per version, and converts block states and biomes
between chunk formats. Each decoder is specified as a function from the input
bytes to a value (or an error) and the bytes left; each encoder as the bytes it
appends; and `Roundtrip::lemma_roundtrip` proves, per packet, that decoding an
encoding gives the value back.

Layout:

- `src/wire.rs`, `src/buffer.rs`: byte-level specifications and the `bytes`
  crate calls they rest on.
- `src/codec.rs`, `src/error.rs`, `src/types/`: the codec traits, errors,
  VarInt/VarLong, positions, UUIDs, chunk state converters.
- `src/versions/`: the packets of each version family.
- `src/negotiation.rs`, `src/registry.rs`: version negotiation and the packet
  id table.
- `src/flattening.rs`, `src/tables.rs`: the 1.12 to 1.13 block and item
  flattening rules.
- `tests/`: executable tests.
- `app/`: the two data programs (`gen_flattening`, `gen_dimension_codec`) and
  copies of library types with `serde`/`thiserror` derives.
