use vstd::prelude::*;

use crate::error::ParserError;
use crate::ubx_packets::bytes_le::{le_u16, read_u16_le};
use crate::ubx_packets::bytes_le::{u16_le_bytes, u16_to_le, u32_le_bytes, u32_to_le};
use crate::ubx_packets::frame::{build_frame, extend_vec, lemma_ubx_frame_layout, ubx_frame, vec_into_array};
use crate::error::MemWriterError;
use crate::ubx_packets::writer::{MemWriter, UbxPacketCreator};
use crate::ubx_packets::bytes_le::{lemma_u16_le_roundtrip};
use crate::ubx_packets::UbxPacketMeta;

verus! {

/// Antenna control settings.
pub struct CfgAnt;

impl UbxPacketMeta for CfgAnt {
    const CLASS: u8 = 0x06;
    const ID: u8 = 0x13;
    const MAX_PAYLOAD_LEN: u16 = 4;

    fn fixed_payload_len() -> (r: Option<u16>)
        ensures
            r == Some(4u16),
    {
        Some(4)
    }
}

/// Payload of a [CfgAnt] packet.
pub struct CfgAntRef<'a>(pub &'a [u8]);

impl<'a> CfgAntRef<'a> {
    /// The outcome of validating a payload: its length, then each field
    /// that only allows some values.
    pub open spec fn spec_validate(payload: Seq<u8>) -> Result<(), ParserError> {
        if payload.len() != 4 {
            Err(ParserError::InvalidPacketLen { packet: "CfgAnt", expect: 4, got: payload.len() as usize })
        }
        else {
            Ok(())
        }
    }

    /// Checks that `payload` is a valid [CfgAnt] payload.
    pub fn validate(payload: &[u8]) -> (r: Result<(), ParserError>)
        ensures
            r == Self::spec_validate(payload@),
    {
        if payload.len() != 4 {
            return Err(ParserError::InvalidPacketLen { packet: "CfgAnt", expect: 4, got: payload.len() });
        }
        Ok(())
    }

    /// Length of the payload.
    pub fn payload_len(&self) -> (r: usize)
        ensures
            r == self.0@.len(),
    {
        self.0.len()
    }

    /// Antenna flag mask (raw bits).
    pub fn flags(&self) -> (r: u16)
        requires
            Self::spec_validate(self.0@) is Ok,
        ensures
            r == le_u16(self.0@, 0),
    {
        read_u16_le(self.0, 0)
    }

    /// Antenna pin configuration.
    pub fn pins(&self) -> (r: u16)
        requires
            Self::spec_validate(self.0@) is Ok,
        ensures
            r == le_u16(self.0@, 2),
    {
        read_u16_le(self.0, 2)
    }

}

/// Builder of [CfgAnt] packets: the raw values of the fields.
pub struct CfgAntBuilder {
    /// Antenna flag mask (raw bits).
    pub flags: u16,
    /// Antenna pin configuration.
    pub pins: u16,
}

impl CfgAntBuilder {
    /// The payload these fields make.
    pub open spec fn payload(&self) -> Seq<u8> {
        u16_le_bytes(self.flags)
            + u16_le_bytes(self.pins)
    }

    /// The whole packet frame.
    pub fn into_packet_bytes(self) -> (r: [u8; 12])
        ensures
            r@ == ubx_frame(CfgAnt::CLASS, CfgAnt::ID, self.payload()),
    {
        let mut payload: Vec<u8> = Vec::new();
        extend_vec(&mut payload, u16_to_le(self.flags).as_slice());
        extend_vec(&mut payload, u16_to_le(self.pins).as_slice());
        proof {
            assert(payload@ =~= self.payload());
            lemma_ubx_frame_layout(CfgAnt::CLASS, CfgAnt::ID, payload@, Seq::<u8>::empty());
            assert(ubx_frame(CfgAnt::CLASS, CfgAnt::ID, payload@) + Seq::<u8>::empty() =~= ubx_frame(
                CfgAnt::CLASS,
                CfgAnt::ID,
                payload@,
            ));
        }
        let frame = build_frame(CfgAnt::CLASS, CfgAnt::ID, payload.as_slice());
        vec_into_array::<12>(&frame)
    }
}

impl UbxPacketCreator for CfgAntBuilder {
    open spec fn packet_bytes(&self) -> Seq<u8> {
        ubx_frame(CfgAnt::CLASS, CfgAnt::ID, self.payload())
    }

    fn create_packet<T: MemWriter>(self, out: &mut T) -> (r: Result<(), MemWriterError<T::Error>>) {
        let bytes = self.into_packet_bytes();
        out.reserve_allocate(12)?;
        out.write(bytes.as_slice())
    }
}

/// Reading back what a [CfgAntBuilder] writes: the payload validates, and
/// each getter of [CfgAntRef] gives the builder's field.
pub proof fn lemma_cfg_ant_fields_roundtrip(b: CfgAntBuilder)
    ensures
        CfgAntRef::spec_validate(b.payload()) is Ok,
        le_u16(b.payload(), 0) == b.flags,
        le_u16(b.payload(), 2) == b.pins,
{
    assert(b.payload().len() == 4);
    lemma_u16_le_roundtrip(b.flags);
    assert(b.payload().subrange(0, 2) =~= u16_le_bytes(b.flags));
    assert(le_u16(b.payload(), 0) == le_u16(u16_le_bytes(b.flags), 0));
    lemma_u16_le_roundtrip(b.pins);
    assert(b.payload().subrange(2, 4) =~= u16_le_bytes(b.pins));
    assert(le_u16(b.payload(), 2) == le_u16(u16_le_bytes(b.pins), 0));
}

/// The class, message id and longest payload of each packet type of this
/// module.
pub proof fn lemma_packet_ids()
    ensures
        CfgAnt::CLASS == 0x06,
        CfgAnt::ID == 0x13,
        CfgAnt::MAX_PAYLOAD_LEN == 4,
{
}

} // verus!
