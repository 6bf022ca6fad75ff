use vstd::prelude::*;

use crate::buffer::slice_subrange;
use crate::error::ParserError;
use crate::ubx_packets::bytes_le::{le_u16, read_i16_le};
use crate::ubx_packets::bytes_le::{u16_le_bytes, u16_to_le, u32_le_bytes, u32_to_le};
use crate::ubx_packets::frame::{build_frame, extend_vec, lemma_ubx_frame_layout, ubx_frame, vec_into_array};
use crate::error::MemWriterError;
use crate::ubx_packets::writer::{MemWriter, UbxPacketCreator};
use crate::ubx_packets::bytes_le::{lemma_i16_u16_roundtrip, lemma_u16_le_roundtrip};
use crate::ubx_packets::UbxPacketMeta;

verus! {

/// Galileo GPS time offset assistance.
pub struct MgaGalTime;

impl UbxPacketMeta for MgaGalTime {
    const CLASS: u8 = 0x13;
    const ID: u8 = 0x02;
    const MAX_PAYLOAD_LEN: u16 = 12;

    fn fixed_payload_len() -> (r: Option<u16>)
        ensures
            r == Some(12u16),
    {
        Some(12)
    }
}

/// Payload of a [MgaGalTime] packet.
pub struct MgaGalTimeRef<'a>(pub &'a [u8]);

impl<'a> MgaGalTimeRef<'a> {
    /// The outcome of validating a payload: its length, then each field
    /// that only allows some values.
    pub open spec fn spec_validate(payload: Seq<u8>) -> Result<(), ParserError> {
        if payload.len() != 12 {
            Err(ParserError::InvalidPacketLen { packet: "MgaGalTime", expect: 12, got: payload.len() as usize })
        }
        else {
            Ok(())
        }
    }

    /// Checks that `payload` is a valid [MgaGalTime] payload.
    pub fn validate(payload: &[u8]) -> (r: Result<(), ParserError>)
        ensures
            r == Self::spec_validate(payload@),
    {
        if payload.len() != 12 {
            return Err(ParserError::InvalidPacketLen { packet: "MgaGalTime", expect: 12, got: payload.len() });
        }
        Ok(())
    }

    /// Length of the payload.
    pub fn payload_len(&self) -> (r: usize)
        ensures
            r == self.0@.len(),
    {
        self.0.len()
    }

    /// Message type.
    pub fn msg_type(&self) -> (r: u8)
        requires
            Self::spec_validate(self.0@) is Ok,
        ensures
            r == self.0@[0],
    {
        self.0[0]
    }

    /// Message version.
    pub fn version(&self) -> (r: u8)
        requires
            Self::spec_validate(self.0@) is Ok,
        ensures
            r == self.0@[1],
    {
        self.0[1]
    }

    pub fn reserved1(&self) -> (r: &[u8])
        requires
            Self::spec_validate(self.0@) is Ok,
        ensures
            r@ == self.0@.subrange(2, 4),
    {
        slice_subrange(self.0, 2, 4)
    }

    /// Constant term of the offset polynomial.
    pub fn a0g_raw(&self) -> (r: i16)
        requires
            Self::spec_validate(self.0@) is Ok,
        ensures
            r == le_u16(self.0@, 4) as i16,
    {
        read_i16_le(self.0, 4)
    }

    /// Rate of change of the offset.
    pub fn a1g_raw(&self) -> (r: i16)
        requires
            Self::spec_validate(self.0@) is Ok,
        ensures
            r == le_u16(self.0@, 6) as i16,
    {
        read_i16_le(self.0, 6)
    }

    /// Reference time, in units of 3600 s.
    pub fn t0g_raw(&self) -> (r: u8)
        requires
            Self::spec_validate(self.0@) is Ok,
        ensures
            r == self.0@[8],
    {
        self.0[8]
    }

    /// Reference week number.
    pub fn wn0g_raw(&self) -> (r: u8)
        requires
            Self::spec_validate(self.0@) is Ok,
        ensures
            r == self.0@[9],
    {
        self.0[9]
    }

    pub fn reserved2(&self) -> (r: &[u8])
        requires
            Self::spec_validate(self.0@) is Ok,
        ensures
            r@ == self.0@.subrange(10, 12),
    {
        slice_subrange(self.0, 10, 12)
    }

}

/// Builder of [MgaGalTime] packets: the raw values of the fields.
pub struct MgaGalTimeBuilder {
    /// Message type.
    pub msg_type: u8,
    /// Message version.
    pub version: u8,
    pub reserved1: [u8; 2],
    /// Constant term of the offset polynomial.
    pub a0g_raw: i16,
    /// Rate of change of the offset.
    pub a1g_raw: i16,
    /// Reference time, in units of 3600 s.
    pub t0g_raw: u8,
    /// Reference week number.
    pub wn0g_raw: u8,
    pub reserved2: [u8; 2],
}

impl MgaGalTimeBuilder {
    /// The payload these fields make.
    pub open spec fn payload(&self) -> Seq<u8> {
        seq![self.msg_type]
            + seq![self.version]
            + self.reserved1@
            + u16_le_bytes(self.a0g_raw as u16)
            + u16_le_bytes(self.a1g_raw as u16)
            + seq![self.t0g_raw]
            + seq![self.wn0g_raw]
            + self.reserved2@
    }

    /// The whole packet frame.
    pub fn into_packet_bytes(self) -> (r: [u8; 20])
        ensures
            r@ == ubx_frame(MgaGalTime::CLASS, MgaGalTime::ID, self.payload()),
    {
        let mut payload: Vec<u8> = Vec::new();
        payload.push(self.msg_type);
        payload.push(self.version);
        extend_vec(&mut payload, self.reserved1.as_slice());
        extend_vec(&mut payload, u16_to_le(self.a0g_raw as u16).as_slice());
        extend_vec(&mut payload, u16_to_le(self.a1g_raw as u16).as_slice());
        payload.push(self.t0g_raw);
        payload.push(self.wn0g_raw);
        extend_vec(&mut payload, self.reserved2.as_slice());
        proof {
            assert(payload@ =~= self.payload());
            lemma_ubx_frame_layout(MgaGalTime::CLASS, MgaGalTime::ID, payload@, Seq::<u8>::empty());
            assert(ubx_frame(MgaGalTime::CLASS, MgaGalTime::ID, payload@) + Seq::<u8>::empty() =~= ubx_frame(
                MgaGalTime::CLASS,
                MgaGalTime::ID,
                payload@,
            ));
        }
        let frame = build_frame(MgaGalTime::CLASS, MgaGalTime::ID, payload.as_slice());
        vec_into_array::<20>(&frame)
    }
}

impl UbxPacketCreator for MgaGalTimeBuilder {
    open spec fn packet_bytes(&self) -> Seq<u8> {
        ubx_frame(MgaGalTime::CLASS, MgaGalTime::ID, self.payload())
    }

    fn create_packet<T: MemWriter>(self, out: &mut T) -> (r: Result<(), MemWriterError<T::Error>>) {
        let bytes = self.into_packet_bytes();
        out.reserve_allocate(20)?;
        out.write(bytes.as_slice())
    }
}

/// Reading back what a [MgaGalTimeBuilder] writes: the payload validates, and
/// each getter of [MgaGalTimeRef] gives the builder's field.
pub proof fn lemma_mga_gal_time_fields_roundtrip(b: MgaGalTimeBuilder)
    ensures
        MgaGalTimeRef::spec_validate(b.payload()) is Ok,
        b.payload()[0] == b.msg_type,
        b.payload()[1] == b.version,
        b.payload().subrange(2, 4) == b.reserved1@,
        le_u16(b.payload(), 4) as i16 == b.a0g_raw,
        le_u16(b.payload(), 6) as i16 == b.a1g_raw,
        b.payload()[8] == b.t0g_raw,
        b.payload()[9] == b.wn0g_raw,
        b.payload().subrange(10, 12) == b.reserved2@,
{
    assert(b.payload().len() == 12);
    assert(b.payload()[0] == b.msg_type);
    assert(b.payload()[1] == b.version);
    assert(b.payload().subrange(2, 4) =~= b.reserved1@);
    lemma_u16_le_roundtrip(b.a0g_raw as u16);
    lemma_i16_u16_roundtrip(b.a0g_raw);
    assert(b.payload().subrange(4, 6) =~= u16_le_bytes(b.a0g_raw as u16));
    assert(le_u16(b.payload(), 4) == le_u16(u16_le_bytes(b.a0g_raw as u16), 0));
    lemma_u16_le_roundtrip(b.a1g_raw as u16);
    lemma_i16_u16_roundtrip(b.a1g_raw);
    assert(b.payload().subrange(6, 8) =~= u16_le_bytes(b.a1g_raw as u16));
    assert(le_u16(b.payload(), 6) == le_u16(u16_le_bytes(b.a1g_raw as u16), 0));
    assert(b.payload()[8] == b.t0g_raw);
    assert(b.payload()[9] == b.wn0g_raw);
    assert(b.payload().subrange(10, 12) =~= b.reserved2@);
}

/// The class, message id and longest payload of each packet type of this
/// module.
pub proof fn lemma_packet_ids()
    ensures
        MgaGalTime::CLASS == 0x13,
        MgaGalTime::ID == 0x02,
        MgaGalTime::MAX_PAYLOAD_LEN == 12,
{
}

} // verus!
