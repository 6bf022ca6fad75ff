use vstd::prelude::*;

use crate::buffer::slice_subrange;
use crate::error::ParserError;
use crate::ubx_packets::bytes_le::{le_u32, read_i32_le};
use crate::ubx_packets::bytes_le::{u16_le_bytes, u16_to_le, u32_le_bytes, u32_to_le};
use crate::ubx_packets::frame::{build_frame, extend_vec, lemma_ubx_frame_layout, ubx_frame, vec_into_array};
use crate::error::MemWriterError;
use crate::ubx_packets::writer::{MemWriter, UbxPacketCreator};
use crate::ubx_packets::bytes_le::{lemma_i32_u32_roundtrip, lemma_i8_u8_roundtrip, lemma_u32_le_roundtrip};
use crate::ubx_packets::UbxPacketMeta;

verus! {

/// GPS UTC assistance.
pub struct MgaGpsUtc;

impl UbxPacketMeta for MgaGpsUtc {
    const CLASS: u8 = 0x13;
    const ID: u8 = 0x00;
    const MAX_PAYLOAD_LEN: u16 = 20;

    fn fixed_payload_len() -> (r: Option<u16>)
        ensures
            r == Some(20u16),
    {
        Some(20)
    }
}

/// Payload of a [MgaGpsUtc] packet.
pub struct MgaGpsUtcRef<'a>(pub &'a [u8]);

impl<'a> MgaGpsUtcRef<'a> {
    /// The outcome of validating a payload: its length, then each field
    /// that only allows some values.
    pub open spec fn spec_validate(payload: Seq<u8>) -> Result<(), ParserError> {
        if payload.len() != 20 {
            Err(ParserError::InvalidPacketLen { packet: "MgaGpsUtc", expect: 20, got: payload.len() as usize })
        }
        else {
            Ok(())
        }
    }

    /// Checks that `payload` is a valid [MgaGpsUtc] payload.
    pub fn validate(payload: &[u8]) -> (r: Result<(), ParserError>)
        ensures
            r == Self::spec_validate(payload@),
    {
        if payload.len() != 20 {
            return Err(ParserError::InvalidPacketLen { packet: "MgaGpsUtc", expect: 20, got: payload.len() });
        }
        Ok(())
    }

    /// Length of the payload.
    pub fn payload_len(&self) -> (r: usize)
        ensures
            r == self.0@.len(),
    {
        self.0.len()
    }

    /// Message type.
    pub fn msg_type(&self) -> (r: u8)
        requires
            Self::spec_validate(self.0@) is Ok,
        ensures
            r == self.0@[0],
    {
        self.0[0]
    }

    /// Message version.
    pub fn version(&self) -> (r: u8)
        requires
            Self::spec_validate(self.0@) is Ok,
        ensures
            r == self.0@[1],
    {
        self.0[1]
    }

    pub fn reserved1(&self) -> (r: &[u8])
        requires
            Self::spec_validate(self.0@) is Ok,
        ensures
            r@ == self.0@.subrange(2, 4),
    {
        slice_subrange(self.0, 2, 4)
    }

    /// First parameter of the UTC polynomial, in units of 2^-30 s.
    pub fn utc_a0_raw(&self) -> (r: i32)
        requires
            Self::spec_validate(self.0@) is Ok,
        ensures
            r == le_u32(self.0@, 4) as i32,
    {
        read_i32_le(self.0, 4)
    }

    /// Second parameter of the UTC polynomial, in units of 2^-50 s/s.
    pub fn utc_a1_raw(&self) -> (r: i32)
        requires
            Self::spec_validate(self.0@) is Ok,
        ensures
            r == le_u32(self.0@, 8) as i32,
    {
        read_i32_le(self.0, 8)
    }

    /// Delta time due to current leap seconds.
    pub fn utc_dt_ls(&self) -> (r: i8)
        requires
            Self::spec_validate(self.0@) is Ok,
        ensures
            r == self.0@[12] as i8,
    {
        self.0[12] as i8
    }

    /// UTC parameter reference time of week.
    pub fn utc_tot(&self) -> (r: u8)
        requires
            Self::spec_validate(self.0@) is Ok,
        ensures
            r == self.0@[13],
    {
        self.0[13]
    }

    /// UTC parameters reference week number.
    pub fn utc_wn_t(&self) -> (r: u8)
        requires
            Self::spec_validate(self.0@) is Ok,
        ensures
            r == self.0@[14],
    {
        self.0[14]
    }

    /// Week number at the end of which the future leap second becomes effective.
    pub fn utc_wn_lsf(&self) -> (r: u8)
        requires
            Self::spec_validate(self.0@) is Ok,
        ensures
            r == self.0@[15],
    {
        self.0[15]
    }

    /// Day number at the end of which the future leap second becomes effective.
    pub fn utc_dn(&self) -> (r: u8)
        requires
            Self::spec_validate(self.0@) is Ok,
        ensures
            r == self.0@[16],
    {
        self.0[16]
    }

    /// Delta time to future leap seconds (s).
    pub fn utc_dt_lsf(&self) -> (r: u8)
        requires
            Self::spec_validate(self.0@) is Ok,
        ensures
            r == self.0@[17],
    {
        self.0[17]
    }

    pub fn reserved2(&self) -> (r: &[u8])
        requires
            Self::spec_validate(self.0@) is Ok,
        ensures
            r@ == self.0@.subrange(18, 20),
    {
        slice_subrange(self.0, 18, 20)
    }

}

/// Builder of [MgaGpsUtc] packets: the raw values of the fields.
pub struct MgaGpsUtcBuilder {
    /// Message type.
    pub msg_type: u8,
    /// Message version.
    pub version: u8,
    pub reserved1: [u8; 2],
    /// First parameter of the UTC polynomial, in units of 2^-30 s.
    pub utc_a0_raw: i32,
    /// Second parameter of the UTC polynomial, in units of 2^-50 s/s.
    pub utc_a1_raw: i32,
    /// Delta time due to current leap seconds.
    pub utc_dt_ls: i8,
    /// UTC parameter reference time of week.
    pub utc_tot: u8,
    /// UTC parameters reference week number.
    pub utc_wn_t: u8,
    /// Week number at the end of which the future leap second becomes effective.
    pub utc_wn_lsf: u8,
    /// Day number at the end of which the future leap second becomes effective.
    pub utc_dn: u8,
    /// Delta time to future leap seconds (s).
    pub utc_dt_lsf: u8,
    pub reserved2: [u8; 2],
}

impl MgaGpsUtcBuilder {
    /// The payload these fields make.
    pub open spec fn payload(&self) -> Seq<u8> {
        seq![self.msg_type]
            + seq![self.version]
            + self.reserved1@
            + u32_le_bytes(self.utc_a0_raw as u32)
            + u32_le_bytes(self.utc_a1_raw as u32)
            + seq![self.utc_dt_ls as u8]
            + seq![self.utc_tot]
            + seq![self.utc_wn_t]
            + seq![self.utc_wn_lsf]
            + seq![self.utc_dn]
            + seq![self.utc_dt_lsf]
            + self.reserved2@
    }

    /// The whole packet frame.
    pub fn into_packet_bytes(self) -> (r: [u8; 28])
        ensures
            r@ == ubx_frame(MgaGpsUtc::CLASS, MgaGpsUtc::ID, self.payload()),
    {
        let mut payload: Vec<u8> = Vec::new();
        payload.push(self.msg_type);
        payload.push(self.version);
        extend_vec(&mut payload, self.reserved1.as_slice());
        extend_vec(&mut payload, u32_to_le(self.utc_a0_raw as u32).as_slice());
        extend_vec(&mut payload, u32_to_le(self.utc_a1_raw as u32).as_slice());
        payload.push(self.utc_dt_ls as u8);
        payload.push(self.utc_tot);
        payload.push(self.utc_wn_t);
        payload.push(self.utc_wn_lsf);
        payload.push(self.utc_dn);
        payload.push(self.utc_dt_lsf);
        extend_vec(&mut payload, self.reserved2.as_slice());
        proof {
            assert(payload@ =~= self.payload());
            lemma_ubx_frame_layout(MgaGpsUtc::CLASS, MgaGpsUtc::ID, payload@, Seq::<u8>::empty());
            assert(ubx_frame(MgaGpsUtc::CLASS, MgaGpsUtc::ID, payload@) + Seq::<u8>::empty() =~= ubx_frame(
                MgaGpsUtc::CLASS,
                MgaGpsUtc::ID,
                payload@,
            ));
        }
        let frame = build_frame(MgaGpsUtc::CLASS, MgaGpsUtc::ID, payload.as_slice());
        vec_into_array::<28>(&frame)
    }
}

impl UbxPacketCreator for MgaGpsUtcBuilder {
    open spec fn packet_bytes(&self) -> Seq<u8> {
        ubx_frame(MgaGpsUtc::CLASS, MgaGpsUtc::ID, self.payload())
    }

    fn create_packet<T: MemWriter>(self, out: &mut T) -> (r: Result<(), MemWriterError<T::Error>>) {
        let bytes = self.into_packet_bytes();
        out.reserve_allocate(28)?;
        out.write(bytes.as_slice())
    }
}

/// Reading back what a [MgaGpsUtcBuilder] writes: the payload validates, and
/// each getter of [MgaGpsUtcRef] gives the builder's field.
pub proof fn lemma_mga_gps_utc_fields_roundtrip(b: MgaGpsUtcBuilder)
    ensures
        MgaGpsUtcRef::spec_validate(b.payload()) is Ok,
        b.payload()[0] == b.msg_type,
        b.payload()[1] == b.version,
        b.payload().subrange(2, 4) == b.reserved1@,
        le_u32(b.payload(), 4) as i32 == b.utc_a0_raw,
        le_u32(b.payload(), 8) as i32 == b.utc_a1_raw,
        b.payload()[12] as i8 == b.utc_dt_ls,
        b.payload()[13] == b.utc_tot,
        b.payload()[14] == b.utc_wn_t,
        b.payload()[15] == b.utc_wn_lsf,
        b.payload()[16] == b.utc_dn,
        b.payload()[17] == b.utc_dt_lsf,
        b.payload().subrange(18, 20) == b.reserved2@,
{
    assert(b.payload().len() == 20);
    assert(b.payload()[0] == b.msg_type);
    assert(b.payload()[1] == b.version);
    assert(b.payload().subrange(2, 4) =~= b.reserved1@);
    lemma_u32_le_roundtrip(b.utc_a0_raw as u32);
    lemma_i32_u32_roundtrip(b.utc_a0_raw);
    assert(b.payload().subrange(4, 8) =~= u32_le_bytes(b.utc_a0_raw as u32));
    assert(le_u32(b.payload(), 4) == le_u32(u32_le_bytes(b.utc_a0_raw as u32), 0));
    lemma_u32_le_roundtrip(b.utc_a1_raw as u32);
    lemma_i32_u32_roundtrip(b.utc_a1_raw);
    assert(b.payload().subrange(8, 12) =~= u32_le_bytes(b.utc_a1_raw as u32));
    assert(le_u32(b.payload(), 8) == le_u32(u32_le_bytes(b.utc_a1_raw as u32), 0));
    lemma_i8_u8_roundtrip(b.utc_dt_ls);
    assert(b.payload()[12] == b.utc_dt_ls as u8);
    assert(b.payload()[13] == b.utc_tot);
    assert(b.payload()[14] == b.utc_wn_t);
    assert(b.payload()[15] == b.utc_wn_lsf);
    assert(b.payload()[16] == b.utc_dn);
    assert(b.payload()[17] == b.utc_dt_lsf);
    assert(b.payload().subrange(18, 20) =~= b.reserved2@);
}

/// The class, message id and longest payload of each packet type of this
/// module.
pub proof fn lemma_packet_ids()
    ensures
        MgaGpsUtc::CLASS == 0x13,
        MgaGpsUtc::ID == 0x00,
        MgaGpsUtc::MAX_PAYLOAD_LEN == 20,
{
}

} // verus!
