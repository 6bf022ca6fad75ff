use vstd::prelude::*;

use crate::buffer::slice_subrange;
use crate::error::ParserError;
use crate::ubx_packets::bytes_le::{le_u16, le_u32, read_i16_le, read_i32_le, read_u32_le};
use crate::ubx_packets::bytes_le::{u16_le_bytes, u16_to_le, u32_le_bytes, u32_to_le};
use crate::ubx_packets::frame::{build_frame, extend_vec, lemma_ubx_frame_layout, ubx_frame, vec_into_array};
use crate::error::MemWriterError;
use crate::ubx_packets::writer::{MemWriter, UbxPacketCreator};
use crate::ubx_packets::bytes_le::{lemma_i16_u16_roundtrip, lemma_i32_u32_roundtrip, lemma_u16_le_roundtrip, lemma_u32_le_roundtrip};
use crate::ubx_packets::UbxPacketMeta;

verus! {

/// BeiDou ephemeris assistance.
pub struct MgaBdsEph;

impl UbxPacketMeta for MgaBdsEph {
    const CLASS: u8 = 0x13;
    const ID: u8 = 0x03;
    const MAX_PAYLOAD_LEN: u16 = 88;

    fn fixed_payload_len() -> (r: Option<u16>)
        ensures
            r == Some(88u16),
    {
        Some(88)
    }
}

/// Payload of a [MgaBdsEph] packet.
pub struct MgaBdsEphRef<'a>(pub &'a [u8]);

impl<'a> MgaBdsEphRef<'a> {
    /// The outcome of validating a payload: its length, then each field
    /// that only allows some values.
    pub open spec fn spec_validate(payload: Seq<u8>) -> Result<(), ParserError> {
        if payload.len() != 88 {
            Err(ParserError::InvalidPacketLen { packet: "MgaBdsEph", expect: 88, got: payload.len() as usize })
        }
        else {
            Ok(())
        }
    }

    /// Checks that `payload` is a valid [MgaBdsEph] payload.
    pub fn validate(payload: &[u8]) -> (r: Result<(), ParserError>)
        ensures
            r == Self::spec_validate(payload@),
    {
        if payload.len() != 88 {
            return Err(ParserError::InvalidPacketLen { packet: "MgaBdsEph", expect: 88, got: payload.len() });
        }
        Ok(())
    }

    /// Length of the payload.
    pub fn payload_len(&self) -> (r: usize)
        ensures
            r == self.0@.len(),
    {
        self.0.len()
    }

    /// Message type.
    pub fn msg_type(&self) -> (r: u8)
        requires
            Self::spec_validate(self.0@) is Ok,
        ensures
            r == self.0@[0],
    {
        self.0[0]
    }

    /// Message version.
    pub fn version(&self) -> (r: u8)
        requires
            Self::spec_validate(self.0@) is Ok,
        ensures
            r == self.0@[1],
    {
        self.0[1]
    }

    /// BeiDou satellite identifier.
    pub fn sv_id(&self) -> (r: u8)
        requires
            Self::spec_validate(self.0@) is Ok,
        ensures
            r == self.0@[2],
    {
        self.0[2]
    }

    pub fn reserved1(&self) -> (r: u8)
        requires
            Self::spec_validate(self.0@) is Ok,
        ensures
            r == self.0@[3],
    {
        self.0[3]
    }

    /// Autonomous satellite health flag.
    pub fn sat_h1(&self) -> (r: u8)
        requires
            Self::spec_validate(self.0@) is Ok,
        ensures
            r == self.0@[4],
    {
        self.0[4]
    }

    /// Issue of data, clock.
    pub fn iodc(&self) -> (r: u8)
        requires
            Self::spec_validate(self.0@) is Ok,
        ensures
            r == self.0@[5],
    {
        self.0[5]
    }

    pub fn a2_raw(&self) -> (r: i16)
        requires
            Self::spec_validate(self.0@) is Ok,
        ensures
            r == le_u16(self.0@, 6) as i16,
    {
        read_i16_le(self.0, 6)
    }

    pub fn a1_raw(&self) -> (r: i32)
        requires
            Self::spec_validate(self.0@) is Ok,
        ensures
            r == le_u32(self.0@, 8) as i32,
    {
        read_i32_le(self.0, 8)
    }

    pub fn a0_raw(&self) -> (r: i32)
        requires
            Self::spec_validate(self.0@) is Ok,
        ensures
            r == le_u32(self.0@, 12) as i32,
    {
        read_i32_le(self.0, 12)
    }

    pub fn toc_raw(&self) -> (r: u32)
        requires
            Self::spec_validate(self.0@) is Ok,
        ensures
            r == le_u32(self.0@, 16),
    {
        read_u32_le(self.0, 16)
    }

    /// Total group delay, in units of 0.1 ns.
    pub fn tgd_ns_raw(&self) -> (r: i16)
        requires
            Self::spec_validate(self.0@) is Ok,
        ensures
            r == le_u16(self.0@, 20) as i16,
    {
        read_i16_le(self.0, 20)
    }

    /// URA index.
    pub fn ura(&self) -> (r: u8)
        requires
            Self::spec_validate(self.0@) is Ok,
        ensures
            r == self.0@[22],
    {
        self.0[22]
    }

    /// Issue of data, ephemeris.
    pub fn iode(&self) -> (r: u8)
        requires
            Self::spec_validate(self.0@) is Ok,
        ensures
            r == self.0@[23],
    {
        self.0[23]
    }

    pub fn toe_raw(&self) -> (r: u32)
        requires
            Self::spec_validate(self.0@) is Ok,
        ensures
            r == le_u32(self.0@, 24),
    {
        read_u32_le(self.0, 24)
    }

    pub fn sqrt_a_raw(&self) -> (r: u32)
        requires
            Self::spec_validate(self.0@) is Ok,
        ensures
            r == le_u32(self.0@, 28),
    {
        read_u32_le(self.0, 28)
    }

    pub fn e_raw(&self) -> (r: u32)
        requires
            Self::spec_validate(self.0@) is Ok,
        ensures
            r == le_u32(self.0@, 32),
    {
        read_u32_le(self.0, 32)
    }

    pub fn omega_semicircles_raw(&self) -> (r: i32)
        requires
            Self::spec_validate(self.0@) is Ok,
        ensures
            r == le_u32(self.0@, 36) as i32,
    {
        read_i32_le(self.0, 36)
    }

    pub fn dn_semicircles_raw(&self) -> (r: i16)
        requires
            Self::spec_validate(self.0@) is Ok,
        ensures
            r == le_u16(self.0@, 40) as i16,
    {
        read_i16_le(self.0, 40)
    }

    pub fn i_dot_semicircles_raw(&self) -> (r: i16)
        requires
            Self::spec_validate(self.0@) is Ok,
        ensures
            r == le_u16(self.0@, 42) as i16,
    {
        read_i16_le(self.0, 42)
    }

    pub fn m0_semicircles_raw(&self) -> (r: i32)
        requires
            Self::spec_validate(self.0@) is Ok,
        ensures
            r == le_u32(self.0@, 44) as i32,
    {
        read_i32_le(self.0, 44)
    }

    pub fn omega0_semicircles_raw(&self) -> (r: i32)
        requires
            Self::spec_validate(self.0@) is Ok,
        ensures
            r == le_u32(self.0@, 48) as i32,
    {
        read_i32_le(self.0, 48)
    }

    pub fn omega_dot_semicircles_raw(&self) -> (r: i32)
        requires
            Self::spec_validate(self.0@) is Ok,
        ensures
            r == le_u32(self.0@, 52) as i32,
    {
        read_i32_le(self.0, 52)
    }

    pub fn i0_semicircles_raw(&self) -> (r: i32)
        requires
            Self::spec_validate(self.0@) is Ok,
        ensures
            r == le_u32(self.0@, 56) as i32,
    {
        read_i32_le(self.0, 56)
    }

    pub fn cuc_rad_raw(&self) -> (r: i32)
        requires
            Self::spec_validate(self.0@) is Ok,
        ensures
            r == le_u32(self.0@, 60) as i32,
    {
        read_i32_le(self.0, 60)
    }

    pub fn cus_rad_raw(&self) -> (r: i32)
        requires
            Self::spec_validate(self.0@) is Ok,
        ensures
            r == le_u32(self.0@, 64) as i32,
    {
        read_i32_le(self.0, 64)
    }

    pub fn crc_rad_raw(&self) -> (r: i32)
        requires
            Self::spec_validate(self.0@) is Ok,
        ensures
            r == le_u32(self.0@, 68) as i32,
    {
        read_i32_le(self.0, 68)
    }

    pub fn crs_rad_raw(&self) -> (r: i32)
        requires
            Self::spec_validate(self.0@) is Ok,
        ensures
            r == le_u32(self.0@, 72) as i32,
    {
        read_i32_le(self.0, 72)
    }

    pub fn cic_rad_raw(&self) -> (r: i32)
        requires
            Self::spec_validate(self.0@) is Ok,
        ensures
            r == le_u32(self.0@, 76) as i32,
    {
        read_i32_le(self.0, 76)
    }

    pub fn cis_rad_raw(&self) -> (r: i32)
        requires
            Self::spec_validate(self.0@) is Ok,
        ensures
            r == le_u32(self.0@, 80) as i32,
    {
        read_i32_le(self.0, 80)
    }

    pub fn reserved2(&self) -> (r: &[u8])
        requires
            Self::spec_validate(self.0@) is Ok,
        ensures
            r@ == self.0@.subrange(84, 88),
    {
        slice_subrange(self.0, 84, 88)
    }

}

/// Builder of [MgaBdsEph] packets: the raw values of the fields.
pub struct MgaBdsEphBuilder {
    /// Message type.
    pub msg_type: u8,
    /// Message version.
    pub version: u8,
    /// BeiDou satellite identifier.
    pub sv_id: u8,
    pub reserved1: u8,
    /// Autonomous satellite health flag.
    pub sat_h1: u8,
    /// Issue of data, clock.
    pub iodc: u8,
    pub a2_raw: i16,
    pub a1_raw: i32,
    pub a0_raw: i32,
    pub toc_raw: u32,
    /// Total group delay, in units of 0.1 ns.
    pub tgd_ns_raw: i16,
    /// URA index.
    pub ura: u8,
    /// Issue of data, ephemeris.
    pub iode: u8,
    pub toe_raw: u32,
    pub sqrt_a_raw: u32,
    pub e_raw: u32,
    pub omega_semicircles_raw: i32,
    pub dn_semicircles_raw: i16,
    pub i_dot_semicircles_raw: i16,
    pub m0_semicircles_raw: i32,
    pub omega0_semicircles_raw: i32,
    pub omega_dot_semicircles_raw: i32,
    pub i0_semicircles_raw: i32,
    pub cuc_rad_raw: i32,
    pub cus_rad_raw: i32,
    pub crc_rad_raw: i32,
    pub crs_rad_raw: i32,
    pub cic_rad_raw: i32,
    pub cis_rad_raw: i32,
    pub reserved2: [u8; 4],
}

impl MgaBdsEphBuilder {
    /// The payload these fields make.
    pub open spec fn payload(&self) -> Seq<u8> {
        seq![self.msg_type]
            + seq![self.version]
            + seq![self.sv_id]
            + seq![self.reserved1]
            + seq![self.sat_h1]
            + seq![self.iodc]
            + u16_le_bytes(self.a2_raw as u16)
            + u32_le_bytes(self.a1_raw as u32)
            + u32_le_bytes(self.a0_raw as u32)
            + u32_le_bytes(self.toc_raw)
            + u16_le_bytes(self.tgd_ns_raw as u16)
            + seq![self.ura]
            + seq![self.iode]
            + u32_le_bytes(self.toe_raw)
            + u32_le_bytes(self.sqrt_a_raw)
            + u32_le_bytes(self.e_raw)
            + u32_le_bytes(self.omega_semicircles_raw as u32)
            + u16_le_bytes(self.dn_semicircles_raw as u16)
            + u16_le_bytes(self.i_dot_semicircles_raw as u16)
            + u32_le_bytes(self.m0_semicircles_raw as u32)
            + u32_le_bytes(self.omega0_semicircles_raw as u32)
            + u32_le_bytes(self.omega_dot_semicircles_raw as u32)
            + u32_le_bytes(self.i0_semicircles_raw as u32)
            + u32_le_bytes(self.cuc_rad_raw as u32)
            + u32_le_bytes(self.cus_rad_raw as u32)
            + u32_le_bytes(self.crc_rad_raw as u32)
            + u32_le_bytes(self.crs_rad_raw as u32)
            + u32_le_bytes(self.cic_rad_raw as u32)
            + u32_le_bytes(self.cis_rad_raw as u32)
            + self.reserved2@
    }

    /// The whole packet frame.
    pub fn into_packet_bytes(self) -> (r: [u8; 96])
        ensures
            r@ == ubx_frame(MgaBdsEph::CLASS, MgaBdsEph::ID, self.payload()),
    {
        let mut payload: Vec<u8> = Vec::new();
        payload.push(self.msg_type);
        payload.push(self.version);
        payload.push(self.sv_id);
        payload.push(self.reserved1);
        payload.push(self.sat_h1);
        payload.push(self.iodc);
        extend_vec(&mut payload, u16_to_le(self.a2_raw as u16).as_slice());
        extend_vec(&mut payload, u32_to_le(self.a1_raw as u32).as_slice());
        extend_vec(&mut payload, u32_to_le(self.a0_raw as u32).as_slice());
        extend_vec(&mut payload, u32_to_le(self.toc_raw).as_slice());
        extend_vec(&mut payload, u16_to_le(self.tgd_ns_raw as u16).as_slice());
        payload.push(self.ura);
        payload.push(self.iode);
        extend_vec(&mut payload, u32_to_le(self.toe_raw).as_slice());
        extend_vec(&mut payload, u32_to_le(self.sqrt_a_raw).as_slice());
        extend_vec(&mut payload, u32_to_le(self.e_raw).as_slice());
        extend_vec(&mut payload, u32_to_le(self.omega_semicircles_raw as u32).as_slice());
        extend_vec(&mut payload, u16_to_le(self.dn_semicircles_raw as u16).as_slice());
        extend_vec(&mut payload, u16_to_le(self.i_dot_semicircles_raw as u16).as_slice());
        extend_vec(&mut payload, u32_to_le(self.m0_semicircles_raw as u32).as_slice());
        extend_vec(&mut payload, u32_to_le(self.omega0_semicircles_raw as u32).as_slice());
        extend_vec(&mut payload, u32_to_le(self.omega_dot_semicircles_raw as u32).as_slice());
        extend_vec(&mut payload, u32_to_le(self.i0_semicircles_raw as u32).as_slice());
        extend_vec(&mut payload, u32_to_le(self.cuc_rad_raw as u32).as_slice());
        extend_vec(&mut payload, u32_to_le(self.cus_rad_raw as u32).as_slice());
        extend_vec(&mut payload, u32_to_le(self.crc_rad_raw as u32).as_slice());
        extend_vec(&mut payload, u32_to_le(self.crs_rad_raw as u32).as_slice());
        extend_vec(&mut payload, u32_to_le(self.cic_rad_raw as u32).as_slice());
        extend_vec(&mut payload, u32_to_le(self.cis_rad_raw as u32).as_slice());
        extend_vec(&mut payload, self.reserved2.as_slice());
        proof {
            assert(payload@ =~= self.payload());
            lemma_ubx_frame_layout(MgaBdsEph::CLASS, MgaBdsEph::ID, payload@, Seq::<u8>::empty());
            assert(ubx_frame(MgaBdsEph::CLASS, MgaBdsEph::ID, payload@) + Seq::<u8>::empty() =~= ubx_frame(
                MgaBdsEph::CLASS,
                MgaBdsEph::ID,
                payload@,
            ));
        }
        let frame = build_frame(MgaBdsEph::CLASS, MgaBdsEph::ID, payload.as_slice());
        vec_into_array::<96>(&frame)
    }
}

impl UbxPacketCreator for MgaBdsEphBuilder {
    open spec fn packet_bytes(&self) -> Seq<u8> {
        ubx_frame(MgaBdsEph::CLASS, MgaBdsEph::ID, self.payload())
    }

    fn create_packet<T: MemWriter>(self, out: &mut T) -> (r: Result<(), MemWriterError<T::Error>>) {
        let bytes = self.into_packet_bytes();
        out.reserve_allocate(96)?;
        out.write(bytes.as_slice())
    }
}

/// Reading back what a [MgaBdsEphBuilder] writes: the payload validates, and
/// each getter of [MgaBdsEphRef] gives the builder's field.
#[verifier::rlimit(60)]
pub proof fn lemma_mga_bds_eph_fields_roundtrip(b: MgaBdsEphBuilder)
    ensures
        MgaBdsEphRef::spec_validate(b.payload()) is Ok,
        b.payload()[0] == b.msg_type,
        b.payload()[1] == b.version,
        b.payload()[2] == b.sv_id,
        b.payload()[3] == b.reserved1,
        b.payload()[4] == b.sat_h1,
        b.payload()[5] == b.iodc,
        le_u16(b.payload(), 6) as i16 == b.a2_raw,
        le_u32(b.payload(), 8) as i32 == b.a1_raw,
        le_u32(b.payload(), 12) as i32 == b.a0_raw,
        le_u32(b.payload(), 16) == b.toc_raw,
        le_u16(b.payload(), 20) as i16 == b.tgd_ns_raw,
        b.payload()[22] == b.ura,
        b.payload()[23] == b.iode,
        le_u32(b.payload(), 24) == b.toe_raw,
        le_u32(b.payload(), 28) == b.sqrt_a_raw,
        le_u32(b.payload(), 32) == b.e_raw,
        le_u32(b.payload(), 36) as i32 == b.omega_semicircles_raw,
        le_u16(b.payload(), 40) as i16 == b.dn_semicircles_raw,
        le_u16(b.payload(), 42) as i16 == b.i_dot_semicircles_raw,
        le_u32(b.payload(), 44) as i32 == b.m0_semicircles_raw,
        le_u32(b.payload(), 48) as i32 == b.omega0_semicircles_raw,
        le_u32(b.payload(), 52) as i32 == b.omega_dot_semicircles_raw,
        le_u32(b.payload(), 56) as i32 == b.i0_semicircles_raw,
        le_u32(b.payload(), 60) as i32 == b.cuc_rad_raw,
        le_u32(b.payload(), 64) as i32 == b.cus_rad_raw,
        le_u32(b.payload(), 68) as i32 == b.crc_rad_raw,
        le_u32(b.payload(), 72) as i32 == b.crs_rad_raw,
        le_u32(b.payload(), 76) as i32 == b.cic_rad_raw,
        le_u32(b.payload(), 80) as i32 == b.cis_rad_raw,
        b.payload().subrange(84, 88) == b.reserved2@,
{
    assert(b.payload().len() == 88);
    assert(b.payload()[0] == b.msg_type);
    assert(b.payload()[1] == b.version);
    assert(b.payload()[2] == b.sv_id);
    assert(b.payload()[3] == b.reserved1);
    assert(b.payload()[4] == b.sat_h1);
    assert(b.payload()[5] == b.iodc);
    lemma_u16_le_roundtrip(b.a2_raw as u16);
    lemma_i16_u16_roundtrip(b.a2_raw);
    assert(b.payload().subrange(6, 8) =~= u16_le_bytes(b.a2_raw as u16));
    assert(le_u16(b.payload(), 6) == le_u16(u16_le_bytes(b.a2_raw as u16), 0));
    lemma_u32_le_roundtrip(b.a1_raw as u32);
    lemma_i32_u32_roundtrip(b.a1_raw);
    assert(b.payload().subrange(8, 12) =~= u32_le_bytes(b.a1_raw as u32));
    assert(le_u32(b.payload(), 8) == le_u32(u32_le_bytes(b.a1_raw as u32), 0));
    lemma_u32_le_roundtrip(b.a0_raw as u32);
    lemma_i32_u32_roundtrip(b.a0_raw);
    assert(b.payload().subrange(12, 16) =~= u32_le_bytes(b.a0_raw as u32));
    assert(le_u32(b.payload(), 12) == le_u32(u32_le_bytes(b.a0_raw as u32), 0));
    lemma_u32_le_roundtrip(b.toc_raw);
    assert(b.payload().subrange(16, 20) =~= u32_le_bytes(b.toc_raw));
    assert(le_u32(b.payload(), 16) == le_u32(u32_le_bytes(b.toc_raw), 0));
    lemma_u16_le_roundtrip(b.tgd_ns_raw as u16);
    lemma_i16_u16_roundtrip(b.tgd_ns_raw);
    assert(b.payload().subrange(20, 22) =~= u16_le_bytes(b.tgd_ns_raw as u16));
    assert(le_u16(b.payload(), 20) == le_u16(u16_le_bytes(b.tgd_ns_raw as u16), 0));
    assert(b.payload()[22] == b.ura);
    assert(b.payload()[23] == b.iode);
    lemma_u32_le_roundtrip(b.toe_raw);
    assert(b.payload().subrange(24, 28) =~= u32_le_bytes(b.toe_raw));
    assert(le_u32(b.payload(), 24) == le_u32(u32_le_bytes(b.toe_raw), 0));
    lemma_u32_le_roundtrip(b.sqrt_a_raw);
    assert(b.payload().subrange(28, 32) =~= u32_le_bytes(b.sqrt_a_raw));
    assert(le_u32(b.payload(), 28) == le_u32(u32_le_bytes(b.sqrt_a_raw), 0));
    lemma_u32_le_roundtrip(b.e_raw);
    assert(b.payload().subrange(32, 36) =~= u32_le_bytes(b.e_raw));
    assert(le_u32(b.payload(), 32) == le_u32(u32_le_bytes(b.e_raw), 0));
    lemma_u32_le_roundtrip(b.omega_semicircles_raw as u32);
    lemma_i32_u32_roundtrip(b.omega_semicircles_raw);
    assert(b.payload().subrange(36, 40) =~= u32_le_bytes(b.omega_semicircles_raw as u32));
    assert(le_u32(b.payload(), 36) == le_u32(u32_le_bytes(b.omega_semicircles_raw as u32), 0));
    lemma_u16_le_roundtrip(b.dn_semicircles_raw as u16);
    lemma_i16_u16_roundtrip(b.dn_semicircles_raw);
    assert(b.payload().subrange(40, 42) =~= u16_le_bytes(b.dn_semicircles_raw as u16));
    assert(le_u16(b.payload(), 40) == le_u16(u16_le_bytes(b.dn_semicircles_raw as u16), 0));
    lemma_u16_le_roundtrip(b.i_dot_semicircles_raw as u16);
    lemma_i16_u16_roundtrip(b.i_dot_semicircles_raw);
    assert(b.payload().subrange(42, 44) =~= u16_le_bytes(b.i_dot_semicircles_raw as u16));
    assert(le_u16(b.payload(), 42) == le_u16(u16_le_bytes(b.i_dot_semicircles_raw as u16), 0));
    lemma_u32_le_roundtrip(b.m0_semicircles_raw as u32);
    lemma_i32_u32_roundtrip(b.m0_semicircles_raw);
    assert(b.payload().subrange(44, 48) =~= u32_le_bytes(b.m0_semicircles_raw as u32));
    assert(le_u32(b.payload(), 44) == le_u32(u32_le_bytes(b.m0_semicircles_raw as u32), 0));
    lemma_u32_le_roundtrip(b.omega0_semicircles_raw as u32);
    lemma_i32_u32_roundtrip(b.omega0_semicircles_raw);
    assert(b.payload().subrange(48, 52) =~= u32_le_bytes(b.omega0_semicircles_raw as u32));
    assert(le_u32(b.payload(), 48) == le_u32(u32_le_bytes(b.omega0_semicircles_raw as u32), 0));
    lemma_u32_le_roundtrip(b.omega_dot_semicircles_raw as u32);
    lemma_i32_u32_roundtrip(b.omega_dot_semicircles_raw);
    assert(b.payload().subrange(52, 56) =~= u32_le_bytes(b.omega_dot_semicircles_raw as u32));
    assert(le_u32(b.payload(), 52) == le_u32(u32_le_bytes(b.omega_dot_semicircles_raw as u32), 0));
    lemma_u32_le_roundtrip(b.i0_semicircles_raw as u32);
    lemma_i32_u32_roundtrip(b.i0_semicircles_raw);
    assert(b.payload().subrange(56, 60) =~= u32_le_bytes(b.i0_semicircles_raw as u32));
    assert(le_u32(b.payload(), 56) == le_u32(u32_le_bytes(b.i0_semicircles_raw as u32), 0));
    lemma_u32_le_roundtrip(b.cuc_rad_raw as u32);
    lemma_i32_u32_roundtrip(b.cuc_rad_raw);
    assert(b.payload().subrange(60, 64) =~= u32_le_bytes(b.cuc_rad_raw as u32));
    assert(le_u32(b.payload(), 60) == le_u32(u32_le_bytes(b.cuc_rad_raw as u32), 0));
    lemma_u32_le_roundtrip(b.cus_rad_raw as u32);
    lemma_i32_u32_roundtrip(b.cus_rad_raw);
    assert(b.payload().subrange(64, 68) =~= u32_le_bytes(b.cus_rad_raw as u32));
    assert(le_u32(b.payload(), 64) == le_u32(u32_le_bytes(b.cus_rad_raw as u32), 0));
    lemma_u32_le_roundtrip(b.crc_rad_raw as u32);
    lemma_i32_u32_roundtrip(b.crc_rad_raw);
    assert(b.payload().subrange(68, 72) =~= u32_le_bytes(b.crc_rad_raw as u32));
    assert(le_u32(b.payload(), 68) == le_u32(u32_le_bytes(b.crc_rad_raw as u32), 0));
    lemma_u32_le_roundtrip(b.crs_rad_raw as u32);
    lemma_i32_u32_roundtrip(b.crs_rad_raw);
    assert(b.payload().subrange(72, 76) =~= u32_le_bytes(b.crs_rad_raw as u32));
    assert(le_u32(b.payload(), 72) == le_u32(u32_le_bytes(b.crs_rad_raw as u32), 0));
    lemma_u32_le_roundtrip(b.cic_rad_raw as u32);
    lemma_i32_u32_roundtrip(b.cic_rad_raw);
    assert(b.payload().subrange(76, 80) =~= u32_le_bytes(b.cic_rad_raw as u32));
    assert(le_u32(b.payload(), 76) == le_u32(u32_le_bytes(b.cic_rad_raw as u32), 0));
    lemma_u32_le_roundtrip(b.cis_rad_raw as u32);
    lemma_i32_u32_roundtrip(b.cis_rad_raw);
    assert(b.payload().subrange(80, 84) =~= u32_le_bytes(b.cis_rad_raw as u32));
    assert(le_u32(b.payload(), 80) == le_u32(u32_le_bytes(b.cis_rad_raw as u32), 0));
    assert(b.payload().subrange(84, 88) =~= b.reserved2@);
}

/// The class, message id and longest payload of each packet type of this
/// module.
pub proof fn lemma_packet_ids()
    ensures
        MgaBdsEph::CLASS == 0x13,
        MgaBdsEph::ID == 0x03,
        MgaBdsEph::MAX_PAYLOAD_LEN == 88,
{
}

} // verus!
