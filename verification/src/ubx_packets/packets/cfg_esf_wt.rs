use vstd::prelude::*;

use crate::buffer::slice_subrange;
use crate::error::ParserError;
use crate::ubx_packets::bytes_le::{le_u16, le_u32, read_u16_le, read_u32_le};
use crate::ubx_packets::bytes_le::{u16_le_bytes, u16_to_le, u32_le_bytes, u32_to_le};
use crate::ubx_packets::frame::{build_frame, extend_vec, lemma_ubx_frame_layout, ubx_frame, vec_into_array};
use crate::error::MemWriterError;
use crate::ubx_packets::writer::{MemWriter, UbxPacketCreator};
use crate::ubx_packets::bytes_le::{lemma_u16_le_roundtrip, lemma_u32_le_roundtrip};
use crate::ubx_packets::UbxPacketMeta;

verus! {

/// Wheel-tick configuration.
pub struct CfgEsfWt;

impl UbxPacketMeta for CfgEsfWt {
    const CLASS: u8 = 0x06;
    const ID: u8 = 0x82;
    const MAX_PAYLOAD_LEN: u16 = 32;

    fn fixed_payload_len() -> (r: Option<u16>)
        ensures
            r == Some(32u16),
    {
        Some(32)
    }
}

/// Payload of a [CfgEsfWt] packet.
pub struct CfgEsfWtRef<'a>(pub &'a [u8]);

impl<'a> CfgEsfWtRef<'a> {
    /// The outcome of validating a payload: its length, then each field
    /// that only allows some values.
    pub open spec fn spec_validate(payload: Seq<u8>) -> Result<(), ParserError> {
        if payload.len() != 32 {
            Err(ParserError::InvalidPacketLen { packet: "CfgEsfWt", expect: 32, got: payload.len() as usize })
        }
        else {
            Ok(())
        }
    }

    /// Checks that `payload` is a valid [CfgEsfWt] payload.
    pub fn validate(payload: &[u8]) -> (r: Result<(), ParserError>)
        ensures
            r == Self::spec_validate(payload@),
    {
        if payload.len() != 32 {
            return Err(ParserError::InvalidPacketLen { packet: "CfgEsfWt", expect: 32, got: payload.len() });
        }
        Ok(())
    }

    /// Length of the payload.
    pub fn payload_len(&self) -> (r: usize)
        ensures
            r == self.0@.len(),
    {
        self.0.len()
    }

    pub fn version(&self) -> (r: u8)
        requires
            Self::spec_validate(self.0@) is Ok,
        ensures
            r == self.0@[0],
    {
        self.0[0]
    }

    /// Flags (raw bits).
    pub fn flags1(&self) -> (r: u8)
        requires
            Self::spec_validate(self.0@) is Ok,
        ensures
            r == self.0@[1],
    {
        self.0[1]
    }

    /// Flags (raw bits).
    pub fn flags2(&self) -> (r: u8)
        requires
            Self::spec_validate(self.0@) is Ok,
        ensures
            r == self.0@[2],
    {
        self.0[2]
    }

    pub fn reserved1(&self) -> (r: u8)
        requires
            Self::spec_validate(self.0@) is Ok,
        ensures
            r == self.0@[3],
    {
        self.0[3]
    }

    /// Wheel tick scaling factor, in units of 1e-6.
    pub fn wt_factor_raw(&self) -> (r: u32)
        requires
            Self::spec_validate(self.0@) is Ok,
        ensures
            r == le_u32(self.0@, 4),
    {
        read_u32_le(self.0, 4)
    }

    /// Wheel tick quantization, in units of 1e-6.
    pub fn wt_quant_error_raw(&self) -> (r: u32)
        requires
            Self::spec_validate(self.0@) is Ok,
        ensures
            r == le_u32(self.0@, 8),
    {
        read_u32_le(self.0, 8)
    }

    /// Wheel tick counter maximum value.
    pub fn wt_count_max(&self) -> (r: u32)
        requires
            Self::spec_validate(self.0@) is Ok,
        ensures
            r == le_u32(self.0@, 12),
    {
        read_u32_le(self.0, 12)
    }

    /// Wheel tick latency due to e.g. CAN bus.
    pub fn wt_latency(&self) -> (r: u16)
        requires
            Self::spec_validate(self.0@) is Ok,
        ensures
            r == le_u16(self.0@, 16),
    {
        read_u16_le(self.0, 16)
    }

    /// Nominal wheel tick data frequency.
    pub fn wt_frequency(&self) -> (r: u8)
        requires
            Self::spec_validate(self.0@) is Ok,
        ensures
            r == self.0@[18],
    {
        self.0[18]
    }

    /// Flags (raw bits).
    pub fn flags3(&self) -> (r: u8)
        requires
            Self::spec_validate(self.0@) is Ok,
        ensures
            r == self.0@[19],
    {
        self.0[19]
    }

    /// Speed sensor dead band.
    pub fn speed_dead_band(&self) -> (r: u16)
        requires
            Self::spec_validate(self.0@) is Ok,
        ensures
            r == le_u16(self.0@, 20),
    {
        read_u16_le(self.0, 20)
    }

    pub fn reserved2(&self) -> (r: &[u8])
        requires
            Self::spec_validate(self.0@) is Ok,
        ensures
            r@ == self.0@.subrange(22, 32),
    {
        slice_subrange(self.0, 22, 32)
    }

}

/// Builder of [CfgEsfWt] packets: the raw values of the fields.
pub struct CfgEsfWtBuilder {
    pub version: u8,
    /// Flags (raw bits).
    pub flags1: u8,
    /// Flags (raw bits).
    pub flags2: u8,
    pub reserved1: u8,
    /// Wheel tick scaling factor, in units of 1e-6.
    pub wt_factor_raw: u32,
    /// Wheel tick quantization, in units of 1e-6.
    pub wt_quant_error_raw: u32,
    /// Wheel tick counter maximum value.
    pub wt_count_max: u32,
    /// Wheel tick latency due to e.g. CAN bus.
    pub wt_latency: u16,
    /// Nominal wheel tick data frequency.
    pub wt_frequency: u8,
    /// Flags (raw bits).
    pub flags3: u8,
    /// Speed sensor dead band.
    pub speed_dead_band: u16,
    pub reserved2: [u8; 10],
}

impl CfgEsfWtBuilder {
    /// The payload these fields make.
    pub open spec fn payload(&self) -> Seq<u8> {
        seq![self.version]
            + seq![self.flags1]
            + seq![self.flags2]
            + seq![self.reserved1]
            + u32_le_bytes(self.wt_factor_raw)
            + u32_le_bytes(self.wt_quant_error_raw)
            + u32_le_bytes(self.wt_count_max)
            + u16_le_bytes(self.wt_latency)
            + seq![self.wt_frequency]
            + seq![self.flags3]
            + u16_le_bytes(self.speed_dead_band)
            + self.reserved2@
    }

    /// The whole packet frame.
    pub fn into_packet_bytes(self) -> (r: [u8; 40])
        ensures
            r@ == ubx_frame(CfgEsfWt::CLASS, CfgEsfWt::ID, self.payload()),
    {
        let mut payload: Vec<u8> = Vec::new();
        payload.push(self.version);
        payload.push(self.flags1);
        payload.push(self.flags2);
        payload.push(self.reserved1);
        extend_vec(&mut payload, u32_to_le(self.wt_factor_raw).as_slice());
        extend_vec(&mut payload, u32_to_le(self.wt_quant_error_raw).as_slice());
        extend_vec(&mut payload, u32_to_le(self.wt_count_max).as_slice());
        extend_vec(&mut payload, u16_to_le(self.wt_latency).as_slice());
        payload.push(self.wt_frequency);
        payload.push(self.flags3);
        extend_vec(&mut payload, u16_to_le(self.speed_dead_band).as_slice());
        extend_vec(&mut payload, self.reserved2.as_slice());
        proof {
            assert(payload@ =~= self.payload());
            lemma_ubx_frame_layout(CfgEsfWt::CLASS, CfgEsfWt::ID, payload@, Seq::<u8>::empty());
            assert(ubx_frame(CfgEsfWt::CLASS, CfgEsfWt::ID, payload@) + Seq::<u8>::empty() =~= ubx_frame(
                CfgEsfWt::CLASS,
                CfgEsfWt::ID,
                payload@,
            ));
        }
        let frame = build_frame(CfgEsfWt::CLASS, CfgEsfWt::ID, payload.as_slice());
        vec_into_array::<40>(&frame)
    }
}

impl UbxPacketCreator for CfgEsfWtBuilder {
    open spec fn packet_bytes(&self) -> Seq<u8> {
        ubx_frame(CfgEsfWt::CLASS, CfgEsfWt::ID, self.payload())
    }

    fn create_packet<T: MemWriter>(self, out: &mut T) -> (r: Result<(), MemWriterError<T::Error>>) {
        let bytes = self.into_packet_bytes();
        out.reserve_allocate(40)?;
        out.write(bytes.as_slice())
    }
}

impl Default for CfgEsfWtBuilder {
    fn default() -> (r: Self)
        ensures
            r.version == 0,
            r.flags1 == 0,
            r.flags2 == 0,
            r.reserved1 == 0,
            r.wt_factor_raw == 0,
            r.wt_quant_error_raw == 0,
            r.wt_count_max == 0,
            r.wt_latency == 0,
            r.wt_frequency == 0,
            r.flags3 == 0,
            r.speed_dead_band == 0,
            r.reserved2@ == Seq::<u8>::new(10, |i: int| 0u8),
    {
        let r = CfgEsfWtBuilder { version: 0, flags1: 0, flags2: 0, reserved1: 0, wt_factor_raw: 0, wt_quant_error_raw: 0, wt_count_max: 0, wt_latency: 0, wt_frequency: 0, flags3: 0, speed_dead_band: 0, reserved2: [0u8; 10] };
        proof {
            assert(r.reserved2@ =~= Seq::<u8>::new(10, |i: int| 0u8));
        }
        r
    }
}

/// Reading back what a [CfgEsfWtBuilder] writes: the payload validates, and
/// each getter of [CfgEsfWtRef] gives the builder's field.
pub proof fn lemma_cfg_esf_wt_fields_roundtrip(b: CfgEsfWtBuilder)
    ensures
        CfgEsfWtRef::spec_validate(b.payload()) is Ok,
        b.payload()[0] == b.version,
        b.payload()[1] == b.flags1,
        b.payload()[2] == b.flags2,
        b.payload()[3] == b.reserved1,
        le_u32(b.payload(), 4) == b.wt_factor_raw,
        le_u32(b.payload(), 8) == b.wt_quant_error_raw,
        le_u32(b.payload(), 12) == b.wt_count_max,
        le_u16(b.payload(), 16) == b.wt_latency,
        b.payload()[18] == b.wt_frequency,
        b.payload()[19] == b.flags3,
        le_u16(b.payload(), 20) == b.speed_dead_band,
        b.payload().subrange(22, 32) == b.reserved2@,
{
    assert(b.payload().len() == 32);
    assert(b.payload()[0] == b.version);
    assert(b.payload()[1] == b.flags1);
    assert(b.payload()[2] == b.flags2);
    assert(b.payload()[3] == b.reserved1);
    lemma_u32_le_roundtrip(b.wt_factor_raw);
    assert(b.payload().subrange(4, 8) =~= u32_le_bytes(b.wt_factor_raw));
    assert(le_u32(b.payload(), 4) == le_u32(u32_le_bytes(b.wt_factor_raw), 0));
    lemma_u32_le_roundtrip(b.wt_quant_error_raw);
    assert(b.payload().subrange(8, 12) =~= u32_le_bytes(b.wt_quant_error_raw));
    assert(le_u32(b.payload(), 8) == le_u32(u32_le_bytes(b.wt_quant_error_raw), 0));
    lemma_u32_le_roundtrip(b.wt_count_max);
    assert(b.payload().subrange(12, 16) =~= u32_le_bytes(b.wt_count_max));
    assert(le_u32(b.payload(), 12) == le_u32(u32_le_bytes(b.wt_count_max), 0));
    lemma_u16_le_roundtrip(b.wt_latency);
    assert(b.payload().subrange(16, 18) =~= u16_le_bytes(b.wt_latency));
    assert(le_u16(b.payload(), 16) == le_u16(u16_le_bytes(b.wt_latency), 0));
    assert(b.payload()[18] == b.wt_frequency);
    assert(b.payload()[19] == b.flags3);
    lemma_u16_le_roundtrip(b.speed_dead_band);
    assert(b.payload().subrange(20, 22) =~= u16_le_bytes(b.speed_dead_band));
    assert(le_u16(b.payload(), 20) == le_u16(u16_le_bytes(b.speed_dead_band), 0));
    assert(b.payload().subrange(22, 32) =~= b.reserved2@);
}

/// The class, message id and longest payload of each packet type of this
/// module.
pub proof fn lemma_packet_ids()
    ensures
        CfgEsfWt::CLASS == 0x06,
        CfgEsfWt::ID == 0x82,
        CfgEsfWt::MAX_PAYLOAD_LEN == 32,
{
}

} // verus!
