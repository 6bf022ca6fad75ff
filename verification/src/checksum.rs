use vstd::prelude::*;

use crate::buffer::UnderlyingBuffer;
use crate::dual_buffer::DualBuffer;
use crate::error::ParserError;

verus! {

/// One step of the UBX Fletcher-16 checksum: both running sums are kept
/// modulo 256.
pub open spec fn checksum_step(state: (u8, u8), byte: u8) -> (u8, u8) {
    let a = ((state.0 + byte) % 256) as u8;
    let b = ((state.1 + a) % 256) as u8;
    (a, b)
}

/// The running checksum after feeding `bytes`, starting from `init`.
pub open spec fn checksum_from(init: (u8, u8), bytes: Seq<u8>) -> (u8, u8)
    decreases bytes.len(),
{
    if bytes.len() == 0 {
        init
    } else {
        checksum_step(checksum_from(init, bytes.drop_last()), bytes.last())
    }
}

/// The UBX checksum (`ck_a`, `ck_b`) of `bytes`, which start with the class
/// byte and end before the checksum field.
pub open spec fn checksum_of(bytes: Seq<u8>) -> (u8, u8) {
    checksum_from((0, 0), bytes)
}

/// The outcome of checking the checksum of the frame at the start of `v`
/// whose payload is `pack_len` bytes long.
pub open spec fn frame_checksum_verdict(v: Seq<u8>, pack_len: u16) -> Result<(), ParserError> {
    let ck = checksum_of(v.subrange(2, 6 + pack_len));
    let ra = v[6 + pack_len];
    let rb = v[7 + pack_len];
    if ck.0 == ra && ck.1 == rb {
        Ok(())
    } else {
        Err(ParserError::InvalidChecksum { expect: u16_le(ra, rb), got: u16_le(ck.0, ck.1) })
    }
}

/// Little-endian `u16` made of two bytes.
pub open spec fn u16_le(lo: u8, hi: u8) -> u16 {
    (lo as int + 256 * (hi as int)) as u16
}

/// Feeding `a` then `b` gives the same checksum as feeding `a + b`.
pub proof fn lemma_checksum_concat(init: (u8, u8), a: Seq<u8>, b: Seq<u8>)
    ensures
        checksum_from(checksum_from(init, a), b) == checksum_from(init, a + b),
    decreases b.len(),
{
    if b.len() == 0 {
        assert(a + b =~= a);
    } else {
        lemma_checksum_concat(init, a, b.drop_last());
        assert((a + b).drop_last() =~= a + b.drop_last());
        assert((a + b).last() == b.last());
    }
}

/// The single step of the checksum as the executable code computes it.
fn step(a: u8, b: u8, byte: u8) -> (r: (u8, u8))
    ensures
        r == checksum_step((a, b), byte),
{
    let na = a.wrapping_add(byte);
    let nb = b.wrapping_add(na);
    (na, nb)
}

/// The checksum is calculated over the packet, starting and including the
/// CLASS field, up until, but excluding, the checksum field. Returns
/// (`ck_a`, `ck_b`).
pub fn ubx_checksum(data: &[u8]) -> (r: (u8, u8))
    ensures
        r == checksum_of(data@),
{
    let mut ck_a: u8 = 0;
    let mut ck_b: u8 = 0;
    let mut i: usize = 0;
    while i < data.len()
        invariant
            i <= data@.len(),
            (ck_a, ck_b) == checksum_of(data@.take(i as int)),
        decreases data@.len() - i,
    {
        let (na, nb) = step(ck_a, ck_b, data[i]);
        proof {
            assert(data@.take(i + 1).drop_last() =~= data@.take(i as int));
        }
        ck_a = na;
        ck_b = nb;
        i = i + 1;
    }
    proof {
        assert(data@.take(data@.len() as int) =~= data@);
    }
    (ck_a, ck_b)
}

/// UBX Fletcher-16 checksum calculator supporting both streaming and
/// single-shot validation.
pub struct UbxChecksumCalc {
    pub ck_a: u8,
    pub ck_b: u8,
}

impl UbxChecksumCalc {
    /// A calculator that has seen no byte.
    pub fn new() -> (r: Self)
        ensures
            r.ck_a == 0 && r.ck_b == 0,
    {
        Self { ck_a: 0, ck_b: 0 }
    }

    /// Update the checksum with new bytes.
    pub fn update(&mut self, bytes: &[u8])
        ensures
            (final(self).ck_a, final(self).ck_b) == checksum_from(
                (old(self).ck_a, old(self).ck_b),
                bytes@,
            ),
    {
        let ghost init = (self.ck_a, self.ck_b);
        let mut i: usize = 0;
        while i < bytes.len()
            invariant
                i <= bytes@.len(),
                (self.ck_a, self.ck_b) == checksum_from(init, bytes@.take(i as int)),
            decreases bytes@.len() - i,
        {
            proof {
                assert(bytes@.take(i + 1).drop_last() =~= bytes@.take(i as int));
            }
            self.update_byte(bytes[i]);
            i = i + 1;
        }
        proof {
            assert(bytes@.take(bytes@.len() as int) =~= bytes@);
        }
    }

    /// Update the checksum with a single byte.
    pub fn update_byte(&mut self, byte: u8)
        ensures
            (final(self).ck_a, final(self).ck_b) == checksum_step((old(self).ck_a, old(self).ck_b), byte),
    {
        let (a, b) = step(self.ck_a, self.ck_b, byte);
        self.ck_a = a;
        self.ck_b = b;
    }

    /// The current checksum result.
    pub fn result(self) -> (r: (u8, u8))
        ensures
            r == (self.ck_a, self.ck_b),
    {
        (self.ck_a, self.ck_b)
    }

    /// Whether the computed checksum equals the received one.
    pub fn is_valid(&self, received_ck_a: u8, received_ck_b: u8) -> (r: bool)
        ensures
            r == (self.ck_a == received_ck_a && self.ck_b == received_ck_b),
    {
        self.ck_a == received_ck_a && self.ck_b == received_ck_b
    }

    /// Single-shot validation of the frame at the start of `buf` whose
    /// payload is `pack_len` bytes long: the checksum over class, id, length
    /// and payload against the two bytes that follow them.
    pub fn validate_buffer<T: UnderlyingBuffer>(buf: &DualBuffer<'_, T>, pack_len: u16) -> (r: Result<
        (),
        ParserError,
    >)
        requires
            buf.well_formed(),
            8 + pack_len <= buf@.len(),
        ensures
            r == frame_checksum_verdict(buf@, pack_len),
    {
        let pack_len = pack_len as usize;
        let mut calc = Self::new();
        let (class_msg_bytes, payload_and_checksum) = buf.peek_raw(2, 6 + pack_len);
        let received_ck_a = buf.at(6 + pack_len);
        let received_ck_b = buf.at(6 + pack_len + 1);
        calc.update(class_msg_bytes);
        calc.update(payload_and_checksum);
        proof {
            lemma_checksum_concat((0, 0), class_msg_bytes@, payload_and_checksum@);
        }
        calc.validate_result(received_ck_a, received_ck_b)
    }

    /// Compare the computed checksum with the received one.
    pub fn validate_result(self, received_ck_a: u8, received_ck_b: u8) -> (r: Result<(), ParserError>)
        ensures
            (self.ck_a == received_ck_a && self.ck_b == received_ck_b) ==> r == Ok::<(), ParserError>(()),
            !(self.ck_a == received_ck_a && self.ck_b == received_ck_b) ==> r == Err::<(), ParserError>(
                ParserError::InvalidChecksum {
                    expect: u16_le(received_ck_a, received_ck_b),
                    got: u16_le(self.ck_a, self.ck_b),
                },
            ),
    {
        let is_valid = self.is_valid(received_ck_a, received_ck_b);
        let (calculated_ck_a, calculated_ck_b) = self.result();
        if is_valid {
            Ok(())
        } else {
            Err(
                ParserError::InvalidChecksum {
                    expect: u16_from_le(received_ck_a, received_ck_b),
                    got: u16_from_le(calculated_ck_a, calculated_ck_b),
                },
            )
        }
    }
}

/// Little-endian `u16` from its two bytes.
pub fn u16_from_le(lo: u8, hi: u8) -> (r: u16)
    ensures
        r == u16_le(lo, hi),
{
    (lo as u16) + 256 * (hi as u16)
}

} // verus!
