# ublox

A parser and packet builder for the u-blox UBX protocol, with RTCM3 and NMEA
framing, written in Verus: every function in `src/` carries a contract that
Verus proves, except three small `#[verifier::external_body]` wrappers
around outside calls (`core::str::from_utf8`, `Vec::reserve` and
`rtcm_rs::next_msg_frame`), whose contracts are trusted.

- `src/buffer.rs`, `src/dual_buffer.rs`, `src/circular_buffer.rs`,
  `src/linear_buffer.rs`: the byte stores the parser reads from, modelled as
  sequences of bytes.
- `src/parser.rs`, `src/parser/scan.rs`: the streaming parser and its
  iterators; their contracts say which frame is handed out and which bytes
  are kept for the next call once an iterator's `finish` is called.
- `src/protocol.rs`, `src/segmenter.rs`: one-shot framing of a buffer and a
  segmenter over a byte stream.
- `src/checksum.rs`: the 8-bit Fletcher checksum of UBX frames.
- `src/ubx_packets/`: packet layouts (getters over payload bytes, builders
  that produce whole frames), configuration keys and values, and laws that
  reading back a built packet gives its fields.
- `src/rtcm.rs`: RTCM3 frame decoding through the `rtcm-rs` crate.
- `app/`: what stays outside the verified library: floating-point scaling,
  `chrono` timestamps, and `Display` for the error types.
