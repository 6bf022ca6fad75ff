use vstd::prelude::*;

verus! {

/// Little-endian `u16` at `off` of `s`.
pub open spec fn le_u16(s: Seq<u8>, off: int) -> u16 {
    (s[off] as int + 256 * (s[off + 1] as int)) as u16
}

/// Little-endian `u32` at `off` of `s`.
pub open spec fn le_u32(s: Seq<u8>, off: int) -> u32 {
    (s[off] as int + 0x100 * (s[off + 1] as int) + 0x10000 * (s[off + 2] as int) + 0x1000000 * (
    s[off + 3] as int)) as u32
}

/// The two little-endian bytes of `x`.
pub open spec fn u16_le_bytes(x: u16) -> Seq<u8> {
    seq![(x % 256) as u8, (x / 256) as u8]
}

/// The four little-endian bytes of `x`.
pub open spec fn u32_le_bytes(x: u32) -> Seq<u8> {
    seq![
        (x % 0x100) as u8,
        ((x / 0x100) % 0x100) as u8,
        ((x / 0x10000) % 0x100) as u8,
        (x / 0x1000000) as u8,
    ]
}

/// Reads a little-endian `u16` at `off`.
pub fn read_u16_le(s: &[u8], off: usize) -> (r: u16)
    requires
        off + 2 <= s@.len(),
    ensures
        r == le_u16(s@, off as int),
{
    (s[off] as u16) + 256 * (s[off + 1] as u16)
}

/// Reads a little-endian `u32` at `off`.
pub fn read_u32_le(s: &[u8], off: usize) -> (r: u32)
    requires
        off + 4 <= s@.len(),
    ensures
        r == le_u32(s@, off as int),
{
    (s[off] as u32) + 0x100 * (s[off + 1] as u32) + 0x10000 * (s[off + 2] as u32) + 0x1000000 * (
    s[off + 3] as u32)
}

/// Reads a little-endian `i16` at `off`.
pub fn read_i16_le(s: &[u8], off: usize) -> (r: i16)
    requires
        off + 2 <= s@.len(),
    ensures
        r == le_u16(s@, off as int) as i16,
{
    read_u16_le(s, off) as i16
}

/// Reads a little-endian `i32` at `off`.
pub fn read_i32_le(s: &[u8], off: usize) -> (r: i32)
    requires
        off + 4 <= s@.len(),
    ensures
        r == le_u32(s@, off as int) as i32,
{
    read_u32_le(s, off) as i32
}

/// The little-endian bytes of a `u16`.
pub fn u16_to_le(x: u16) -> (r: [u8; 2])
    ensures
        r@ == u16_le_bytes(x),
{
    [(x % 256) as u8, (x / 256) as u8]
}

/// The little-endian bytes of a `u32`.
pub fn u32_to_le(x: u32) -> (r: [u8; 4])
    ensures
        r@ == u32_le_bytes(x),
{
    [(x % 0x100) as u8, ((x / 0x100) % 0x100) as u8, ((x / 0x10000) % 0x100) as u8, (x / 0x1000000) as u8]
}

/// Writing the little-endian bytes of `x` and reading them back gives `x`.
pub proof fn lemma_u16_le_roundtrip(x: u16)
    ensures
        le_u16(u16_le_bytes(x), 0) == x,
{
}

/// Writing the little-endian bytes of `x` and reading them back gives `x`.
pub proof fn lemma_u32_le_roundtrip(x: u32)
    ensures
        le_u32(u32_le_bytes(x), 0) == x,
{
}

/// A signed byte survives the trip through its unsigned bits.
pub proof fn lemma_i8_u8_roundtrip(x: i8)
    ensures
        (x as u8) as i8 == x,
{
    assert((x as u8) as i8 == x) by (bit_vector);
}

/// A signed `i16` survives the trip through its unsigned bits.
pub proof fn lemma_i16_u16_roundtrip(x: i16)
    ensures
        (x as u16) as i16 == x,
{
    assert((x as u16) as i16 == x) by (bit_vector);
}

/// A signed `i32` survives the trip through its unsigned bits.
pub proof fn lemma_i32_u32_roundtrip(x: i32)
    ensures
        (x as u32) as i32 == x,
{
    assert((x as u32) as i32 == x) by (bit_vector);
}

} // verus!
