use vstd::prelude::*;

use crate::buffer::slice_subrange;
use crate::error::ParserError;
use crate::ubx_packets::bytes_le::{le_u16, le_u32, read_i16_le, read_i32_le, read_u16_le, read_u32_le};
use crate::ubx_packets::bytes_le::{u16_le_bytes, u16_to_le, u32_le_bytes, u32_to_le};
use crate::ubx_packets::frame::{build_frame, extend_vec, lemma_ubx_frame_layout, ubx_frame, vec_into_array};
use crate::error::MemWriterError;
use crate::ubx_packets::writer::{MemWriter, UbxPacketCreator};
use crate::ubx_packets::bytes_le::{lemma_i16_u16_roundtrip, lemma_i32_u32_roundtrip, lemma_i8_u8_roundtrip, lemma_u16_le_roundtrip, lemma_u32_le_roundtrip};
use crate::ubx_packets::UbxPacketMeta;

verus! {

/// Galileo ephemeris assistance.
pub struct MgaGalEph;

impl UbxPacketMeta for MgaGalEph {
    const CLASS: u8 = 0x13;
    const ID: u8 = 0x02;
    const MAX_PAYLOAD_LEN: u16 = 76;

    fn fixed_payload_len() -> (r: Option<u16>)
        ensures
            r == Some(76u16),
    {
        Some(76)
    }
}

/// Payload of a [MgaGalEph] packet.
pub struct MgaGalEphRef<'a>(pub &'a [u8]);

impl<'a> MgaGalEphRef<'a> {
    /// The outcome of validating a payload: its length, then each field
    /// that only allows some values.
    pub open spec fn spec_validate(payload: Seq<u8>) -> Result<(), ParserError> {
        if payload.len() != 76 {
            Err(ParserError::InvalidPacketLen { packet: "MgaGalEph", expect: 76, got: payload.len() as usize })
        }
        else {
            Ok(())
        }
    }

    /// Checks that `payload` is a valid [MgaGalEph] payload.
    pub fn validate(payload: &[u8]) -> (r: Result<(), ParserError>)
        ensures
            r == Self::spec_validate(payload@),
    {
        if payload.len() != 76 {
            return Err(ParserError::InvalidPacketLen { packet: "MgaGalEph", expect: 76, got: payload.len() });
        }
        Ok(())
    }

    /// Length of the payload.
    pub fn payload_len(&self) -> (r: usize)
        ensures
            r == self.0@.len(),
    {
        self.0.len()
    }

    /// Message type.
    pub fn msg_type(&self) -> (r: u8)
        requires
            Self::spec_validate(self.0@) is Ok,
        ensures
            r == self.0@[0],
    {
        self.0[0]
    }

    /// Message version.
    pub fn version(&self) -> (r: u8)
        requires
            Self::spec_validate(self.0@) is Ok,
        ensures
            r == self.0@[1],
    {
        self.0[1]
    }

    /// Galileo satellite identifier.
    pub fn sv_id(&self) -> (r: u8)
        requires
            Self::spec_validate(self.0@) is Ok,
        ensures
            r == self.0@[2],
    {
        self.0[2]
    }

    pub fn reserved1(&self) -> (r: u8)
        requires
            Self::spec_validate(self.0@) is Ok,
        ensures
            r == self.0@[3],
    {
        self.0[3]
    }

    /// Ephemeris and clock correction issue of data.
    pub fn iodnav(&self) -> (r: u16)
        requires
            Self::spec_validate(self.0@) is Ok,
        ensures
            r == le_u16(self.0@, 4),
    {
        read_u16_le(self.0, 4)
    }

    pub fn dn_semicircles_raw(&self) -> (r: i16)
        requires
            Self::spec_validate(self.0@) is Ok,
        ensures
            r == le_u16(self.0@, 6) as i16,
    {
        read_i16_le(self.0, 6)
    }

    pub fn m0_semicircles_raw(&self) -> (r: i32)
        requires
            Self::spec_validate(self.0@) is Ok,
        ensures
            r == le_u32(self.0@, 8) as i32,
    {
        read_i32_le(self.0, 8)
    }

    pub fn e_raw(&self) -> (r: u32)
        requires
            Self::spec_validate(self.0@) is Ok,
        ensures
            r == le_u32(self.0@, 12),
    {
        read_u32_le(self.0, 12)
    }

    pub fn sqrt_a_raw(&self) -> (r: u32)
        requires
            Self::spec_validate(self.0@) is Ok,
        ensures
            r == le_u32(self.0@, 16),
    {
        read_u32_le(self.0, 16)
    }

    pub fn omega0_semicircles_raw(&self) -> (r: i32)
        requires
            Self::spec_validate(self.0@) is Ok,
        ensures
            r == le_u32(self.0@, 20) as i32,
    {
        read_i32_le(self.0, 20)
    }

    pub fn i0_semicircles_raw(&self) -> (r: i32)
        requires
            Self::spec_validate(self.0@) is Ok,
        ensures
            r == le_u32(self.0@, 24) as i32,
    {
        read_i32_le(self.0, 24)
    }

    pub fn omega_semicircles_raw(&self) -> (r: i32)
        requires
            Self::spec_validate(self.0@) is Ok,
        ensures
            r == le_u32(self.0@, 28) as i32,
    {
        read_i32_le(self.0, 28)
    }

    pub fn omega_dot_semicircles_raw(&self) -> (r: i32)
        requires
            Self::spec_validate(self.0@) is Ok,
        ensures
            r == le_u32(self.0@, 32) as i32,
    {
        read_i32_le(self.0, 32)
    }

    pub fn i_dot_semicircles_raw(&self) -> (r: i16)
        requires
            Self::spec_validate(self.0@) is Ok,
        ensures
            r == le_u16(self.0@, 36) as i16,
    {
        read_i16_le(self.0, 36)
    }

    pub fn cuc_rad_raw(&self) -> (r: i16)
        requires
            Self::spec_validate(self.0@) is Ok,
        ensures
            r == le_u16(self.0@, 38) as i16,
    {
        read_i16_le(self.0, 38)
    }

    pub fn cus_rad_raw(&self) -> (r: i16)
        requires
            Self::spec_validate(self.0@) is Ok,
        ensures
            r == le_u16(self.0@, 40) as i16,
    {
        read_i16_le(self.0, 40)
    }

    pub fn crc_rad_raw(&self) -> (r: i16)
        requires
            Self::spec_validate(self.0@) is Ok,
        ensures
            r == le_u16(self.0@, 42) as i16,
    {
        read_i16_le(self.0, 42)
    }

    pub fn crs_rad_raw(&self) -> (r: i16)
        requires
            Self::spec_validate(self.0@) is Ok,
        ensures
            r == le_u16(self.0@, 44) as i16,
    {
        read_i16_le(self.0, 44)
    }

    pub fn cic_rad_raw(&self) -> (r: i16)
        requires
            Self::spec_validate(self.0@) is Ok,
        ensures
            r == le_u16(self.0@, 46) as i16,
    {
        read_i16_le(self.0, 46)
    }

    pub fn cis_rad_raw(&self) -> (r: i16)
        requires
            Self::spec_validate(self.0@) is Ok,
        ensures
            r == le_u16(self.0@, 48) as i16,
    {
        read_i16_le(self.0, 48)
    }

    /// Time of ephemeris, in units of 60 s.
    pub fn toe_raw(&self) -> (r: u16)
        requires
            Self::spec_validate(self.0@) is Ok,
        ensures
            r == le_u16(self.0@, 50),
    {
        read_u16_le(self.0, 50)
    }

    pub fn af0_raw(&self) -> (r: i32)
        requires
            Self::spec_validate(self.0@) is Ok,
        ensures
            r == le_u32(self.0@, 52) as i32,
    {
        read_i32_le(self.0, 52)
    }

    pub fn af1_raw(&self) -> (r: i32)
        requires
            Self::spec_validate(self.0@) is Ok,
        ensures
            r == le_u32(self.0@, 56) as i32,
    {
        read_i32_le(self.0, 56)
    }

    pub fn af2_raw(&self) -> (r: i8)
        requires
            Self::spec_validate(self.0@) is Ok,
        ensures
            r == self.0@[60] as i8,
    {
        self.0[60] as i8
    }

    /// Signal-in-space accuracy index for E1-E5b.
    pub fn sisa_e1_e5b(&self) -> (r: u8)
        requires
            Self::spec_validate(self.0@) is Ok,
        ensures
            r == self.0@[61],
    {
        self.0[61]
    }

    /// Time of clock, in units of 60 s.
    pub fn toc_raw(&self) -> (r: u16)
        requires
            Self::spec_validate(self.0@) is Ok,
        ensures
            r == le_u16(self.0@, 62),
    {
        read_u16_le(self.0, 62)
    }

    pub fn bgd_e1_e5b_s_raw(&self) -> (r: i16)
        requires
            Self::spec_validate(self.0@) is Ok,
        ensures
            r == le_u16(self.0@, 64) as i16,
    {
        read_i16_le(self.0, 64)
    }

    pub fn reserved2(&self) -> (r: &[u8])
        requires
            Self::spec_validate(self.0@) is Ok,
        ensures
            r@ == self.0@.subrange(66, 68),
    {
        slice_subrange(self.0, 66, 68)
    }

    /// E1-B signal health.
    pub fn e1b_health(&self) -> (r: u8)
        requires
            Self::spec_validate(self.0@) is Ok,
        ensures
            r == self.0@[68],
    {
        self.0[68]
    }

    /// E1-B data validity.
    pub fn e1b_validity(&self) -> (r: u8)
        requires
            Self::spec_validate(self.0@) is Ok,
        ensures
            r == self.0@[69],
    {
        self.0[69]
    }

    /// E5b signal health.
    pub fn e5b_health(&self) -> (r: u8)
        requires
            Self::spec_validate(self.0@) is Ok,
        ensures
            r == self.0@[70],
    {
        self.0[70]
    }

    /// E5b data validity.
    pub fn e5b_validity(&self) -> (r: u8)
        requires
            Self::spec_validate(self.0@) is Ok,
        ensures
            r == self.0@[71],
    {
        self.0[71]
    }

    pub fn reserved3(&self) -> (r: &[u8])
        requires
            Self::spec_validate(self.0@) is Ok,
        ensures
            r@ == self.0@.subrange(72, 76),
    {
        slice_subrange(self.0, 72, 76)
    }

}

/// Builder of [MgaGalEph] packets: the raw values of the fields.
pub struct MgaGalEphBuilder {
    /// Message type.
    pub msg_type: u8,
    /// Message version.
    pub version: u8,
    /// Galileo satellite identifier.
    pub sv_id: u8,
    pub reserved1: u8,
    /// Ephemeris and clock correction issue of data.
    pub iodnav: u16,
    pub dn_semicircles_raw: i16,
    pub m0_semicircles_raw: i32,
    pub e_raw: u32,
    pub sqrt_a_raw: u32,
    pub omega0_semicircles_raw: i32,
    pub i0_semicircles_raw: i32,
    pub omega_semicircles_raw: i32,
    pub omega_dot_semicircles_raw: i32,
    pub i_dot_semicircles_raw: i16,
    pub cuc_rad_raw: i16,
    pub cus_rad_raw: i16,
    pub crc_rad_raw: i16,
    pub crs_rad_raw: i16,
    pub cic_rad_raw: i16,
    pub cis_rad_raw: i16,
    /// Time of ephemeris, in units of 60 s.
    pub toe_raw: u16,
    pub af0_raw: i32,
    pub af1_raw: i32,
    pub af2_raw: i8,
    /// Signal-in-space accuracy index for E1-E5b.
    pub sisa_e1_e5b: u8,
    /// Time of clock, in units of 60 s.
    pub toc_raw: u16,
    pub bgd_e1_e5b_s_raw: i16,
    pub reserved2: [u8; 2],
    /// E1-B signal health.
    pub e1b_health: u8,
    /// E1-B data validity.
    pub e1b_validity: u8,
    /// E5b signal health.
    pub e5b_health: u8,
    /// E5b data validity.
    pub e5b_validity: u8,
    pub reserved3: [u8; 4],
}

impl MgaGalEphBuilder {
    /// The payload these fields make.
    pub open spec fn payload(&self) -> Seq<u8> {
        seq![self.msg_type]
            + seq![self.version]
            + seq![self.sv_id]
            + seq![self.reserved1]
            + u16_le_bytes(self.iodnav)
            + u16_le_bytes(self.dn_semicircles_raw as u16)
            + u32_le_bytes(self.m0_semicircles_raw as u32)
            + u32_le_bytes(self.e_raw)
            + u32_le_bytes(self.sqrt_a_raw)
            + u32_le_bytes(self.omega0_semicircles_raw as u32)
            + u32_le_bytes(self.i0_semicircles_raw as u32)
            + u32_le_bytes(self.omega_semicircles_raw as u32)
            + u32_le_bytes(self.omega_dot_semicircles_raw as u32)
            + u16_le_bytes(self.i_dot_semicircles_raw as u16)
            + u16_le_bytes(self.cuc_rad_raw as u16)
            + u16_le_bytes(self.cus_rad_raw as u16)
            + u16_le_bytes(self.crc_rad_raw as u16)
            + u16_le_bytes(self.crs_rad_raw as u16)
            + u16_le_bytes(self.cic_rad_raw as u16)
            + u16_le_bytes(self.cis_rad_raw as u16)
            + u16_le_bytes(self.toe_raw)
            + u32_le_bytes(self.af0_raw as u32)
            + u32_le_bytes(self.af1_raw as u32)
            + seq![self.af2_raw as u8]
            + seq![self.sisa_e1_e5b]
            + u16_le_bytes(self.toc_raw)
            + u16_le_bytes(self.bgd_e1_e5b_s_raw as u16)
            + self.reserved2@
            + seq![self.e1b_health]
            + seq![self.e1b_validity]
            + seq![self.e5b_health]
            + seq![self.e5b_validity]
            + self.reserved3@
    }

    /// The whole packet frame.
    pub fn into_packet_bytes(self) -> (r: [u8; 84])
        ensures
            r@ == ubx_frame(MgaGalEph::CLASS, MgaGalEph::ID, self.payload()),
    {
        let mut payload: Vec<u8> = Vec::new();
        payload.push(self.msg_type);
        payload.push(self.version);
        payload.push(self.sv_id);
        payload.push(self.reserved1);
        extend_vec(&mut payload, u16_to_le(self.iodnav).as_slice());
        extend_vec(&mut payload, u16_to_le(self.dn_semicircles_raw as u16).as_slice());
        extend_vec(&mut payload, u32_to_le(self.m0_semicircles_raw as u32).as_slice());
        extend_vec(&mut payload, u32_to_le(self.e_raw).as_slice());
        extend_vec(&mut payload, u32_to_le(self.sqrt_a_raw).as_slice());
        extend_vec(&mut payload, u32_to_le(self.omega0_semicircles_raw as u32).as_slice());
        extend_vec(&mut payload, u32_to_le(self.i0_semicircles_raw as u32).as_slice());
        extend_vec(&mut payload, u32_to_le(self.omega_semicircles_raw as u32).as_slice());
        extend_vec(&mut payload, u32_to_le(self.omega_dot_semicircles_raw as u32).as_slice());
        extend_vec(&mut payload, u16_to_le(self.i_dot_semicircles_raw as u16).as_slice());
        extend_vec(&mut payload, u16_to_le(self.cuc_rad_raw as u16).as_slice());
        extend_vec(&mut payload, u16_to_le(self.cus_rad_raw as u16).as_slice());
        extend_vec(&mut payload, u16_to_le(self.crc_rad_raw as u16).as_slice());
        extend_vec(&mut payload, u16_to_le(self.crs_rad_raw as u16).as_slice());
        extend_vec(&mut payload, u16_to_le(self.cic_rad_raw as u16).as_slice());
        extend_vec(&mut payload, u16_to_le(self.cis_rad_raw as u16).as_slice());
        extend_vec(&mut payload, u16_to_le(self.toe_raw).as_slice());
        extend_vec(&mut payload, u32_to_le(self.af0_raw as u32).as_slice());
        extend_vec(&mut payload, u32_to_le(self.af1_raw as u32).as_slice());
        payload.push(self.af2_raw as u8);
        payload.push(self.sisa_e1_e5b);
        extend_vec(&mut payload, u16_to_le(self.toc_raw).as_slice());
        extend_vec(&mut payload, u16_to_le(self.bgd_e1_e5b_s_raw as u16).as_slice());
        extend_vec(&mut payload, self.reserved2.as_slice());
        payload.push(self.e1b_health);
        payload.push(self.e1b_validity);
        payload.push(self.e5b_health);
        payload.push(self.e5b_validity);
        extend_vec(&mut payload, self.reserved3.as_slice());
        proof {
            assert(payload@ =~= self.payload());
            lemma_ubx_frame_layout(MgaGalEph::CLASS, MgaGalEph::ID, payload@, Seq::<u8>::empty());
            assert(ubx_frame(MgaGalEph::CLASS, MgaGalEph::ID, payload@) + Seq::<u8>::empty() =~= ubx_frame(
                MgaGalEph::CLASS,
                MgaGalEph::ID,
                payload@,
            ));
        }
        let frame = build_frame(MgaGalEph::CLASS, MgaGalEph::ID, payload.as_slice());
        vec_into_array::<84>(&frame)
    }
}

impl UbxPacketCreator for MgaGalEphBuilder {
    open spec fn packet_bytes(&self) -> Seq<u8> {
        ubx_frame(MgaGalEph::CLASS, MgaGalEph::ID, self.payload())
    }

    fn create_packet<T: MemWriter>(self, out: &mut T) -> (r: Result<(), MemWriterError<T::Error>>) {
        let bytes = self.into_packet_bytes();
        out.reserve_allocate(84)?;
        out.write(bytes.as_slice())
    }
}

/// Reading back what a [MgaGalEphBuilder] writes: the payload validates, and
/// each getter of [MgaGalEphRef] gives the builder's field.
#[verifier::rlimit(60)]
pub proof fn lemma_mga_gal_eph_fields_roundtrip(b: MgaGalEphBuilder)
    ensures
        MgaGalEphRef::spec_validate(b.payload()) is Ok,
        b.payload()[0] == b.msg_type,
        b.payload()[1] == b.version,
        b.payload()[2] == b.sv_id,
        b.payload()[3] == b.reserved1,
        le_u16(b.payload(), 4) == b.iodnav,
        le_u16(b.payload(), 6) as i16 == b.dn_semicircles_raw,
        le_u32(b.payload(), 8) as i32 == b.m0_semicircles_raw,
        le_u32(b.payload(), 12) == b.e_raw,
        le_u32(b.payload(), 16) == b.sqrt_a_raw,
        le_u32(b.payload(), 20) as i32 == b.omega0_semicircles_raw,
        le_u32(b.payload(), 24) as i32 == b.i0_semicircles_raw,
        le_u32(b.payload(), 28) as i32 == b.omega_semicircles_raw,
        le_u32(b.payload(), 32) as i32 == b.omega_dot_semicircles_raw,
        le_u16(b.payload(), 36) as i16 == b.i_dot_semicircles_raw,
        le_u16(b.payload(), 38) as i16 == b.cuc_rad_raw,
        le_u16(b.payload(), 40) as i16 == b.cus_rad_raw,
        le_u16(b.payload(), 42) as i16 == b.crc_rad_raw,
        le_u16(b.payload(), 44) as i16 == b.crs_rad_raw,
        le_u16(b.payload(), 46) as i16 == b.cic_rad_raw,
        le_u16(b.payload(), 48) as i16 == b.cis_rad_raw,
        le_u16(b.payload(), 50) == b.toe_raw,
        le_u32(b.payload(), 52) as i32 == b.af0_raw,
        le_u32(b.payload(), 56) as i32 == b.af1_raw,
        b.payload()[60] as i8 == b.af2_raw,
        b.payload()[61] == b.sisa_e1_e5b,
        le_u16(b.payload(), 62) == b.toc_raw,
        le_u16(b.payload(), 64) as i16 == b.bgd_e1_e5b_s_raw,
        b.payload().subrange(66, 68) == b.reserved2@,
        b.payload()[68] == b.e1b_health,
        b.payload()[69] == b.e1b_validity,
        b.payload()[70] == b.e5b_health,
        b.payload()[71] == b.e5b_validity,
        b.payload().subrange(72, 76) == b.reserved3@,
{
    assert(b.payload().len() == 76);
    assert(b.payload()[0] == b.msg_type);
    assert(b.payload()[1] == b.version);
    assert(b.payload()[2] == b.sv_id);
    assert(b.payload()[3] == b.reserved1);
    lemma_u16_le_roundtrip(b.iodnav);
    assert(b.payload().subrange(4, 6) =~= u16_le_bytes(b.iodnav));
    assert(le_u16(b.payload(), 4) == le_u16(u16_le_bytes(b.iodnav), 0));
    lemma_u16_le_roundtrip(b.dn_semicircles_raw as u16);
    lemma_i16_u16_roundtrip(b.dn_semicircles_raw);
    assert(b.payload().subrange(6, 8) =~= u16_le_bytes(b.dn_semicircles_raw as u16));
    assert(le_u16(b.payload(), 6) == le_u16(u16_le_bytes(b.dn_semicircles_raw as u16), 0));
    lemma_u32_le_roundtrip(b.m0_semicircles_raw as u32);
    lemma_i32_u32_roundtrip(b.m0_semicircles_raw);
    assert(b.payload().subrange(8, 12) =~= u32_le_bytes(b.m0_semicircles_raw as u32));
    assert(le_u32(b.payload(), 8) == le_u32(u32_le_bytes(b.m0_semicircles_raw as u32), 0));
    lemma_u32_le_roundtrip(b.e_raw);
    assert(b.payload().subrange(12, 16) =~= u32_le_bytes(b.e_raw));
    assert(le_u32(b.payload(), 12) == le_u32(u32_le_bytes(b.e_raw), 0));
    lemma_u32_le_roundtrip(b.sqrt_a_raw);
    assert(b.payload().subrange(16, 20) =~= u32_le_bytes(b.sqrt_a_raw));
    assert(le_u32(b.payload(), 16) == le_u32(u32_le_bytes(b.sqrt_a_raw), 0));
    lemma_u32_le_roundtrip(b.omega0_semicircles_raw as u32);
    lemma_i32_u32_roundtrip(b.omega0_semicircles_raw);
    assert(b.payload().subrange(20, 24) =~= u32_le_bytes(b.omega0_semicircles_raw as u32));
    assert(le_u32(b.payload(), 20) == le_u32(u32_le_bytes(b.omega0_semicircles_raw as u32), 0));
    lemma_u32_le_roundtrip(b.i0_semicircles_raw as u32);
    lemma_i32_u32_roundtrip(b.i0_semicircles_raw);
    assert(b.payload().subrange(24, 28) =~= u32_le_bytes(b.i0_semicircles_raw as u32));
    assert(le_u32(b.payload(), 24) == le_u32(u32_le_bytes(b.i0_semicircles_raw as u32), 0));
    lemma_u32_le_roundtrip(b.omega_semicircles_raw as u32);
    lemma_i32_u32_roundtrip(b.omega_semicircles_raw);
    assert(b.payload().subrange(28, 32) =~= u32_le_bytes(b.omega_semicircles_raw as u32));
    assert(le_u32(b.payload(), 28) == le_u32(u32_le_bytes(b.omega_semicircles_raw as u32), 0));
    lemma_u32_le_roundtrip(b.omega_dot_semicircles_raw as u32);
    lemma_i32_u32_roundtrip(b.omega_dot_semicircles_raw);
    assert(b.payload().subrange(32, 36) =~= u32_le_bytes(b.omega_dot_semicircles_raw as u32));
    assert(le_u32(b.payload(), 32) == le_u32(u32_le_bytes(b.omega_dot_semicircles_raw as u32), 0));
    lemma_u16_le_roundtrip(b.i_dot_semicircles_raw as u16);
    lemma_i16_u16_roundtrip(b.i_dot_semicircles_raw);
    assert(b.payload().subrange(36, 38) =~= u16_le_bytes(b.i_dot_semicircles_raw as u16));
    assert(le_u16(b.payload(), 36) == le_u16(u16_le_bytes(b.i_dot_semicircles_raw as u16), 0));
    lemma_u16_le_roundtrip(b.cuc_rad_raw as u16);
    lemma_i16_u16_roundtrip(b.cuc_rad_raw);
    assert(b.payload().subrange(38, 40) =~= u16_le_bytes(b.cuc_rad_raw as u16));
    assert(le_u16(b.payload(), 38) == le_u16(u16_le_bytes(b.cuc_rad_raw as u16), 0));
    lemma_u16_le_roundtrip(b.cus_rad_raw as u16);
    lemma_i16_u16_roundtrip(b.cus_rad_raw);
    assert(b.payload().subrange(40, 42) =~= u16_le_bytes(b.cus_rad_raw as u16));
    assert(le_u16(b.payload(), 40) == le_u16(u16_le_bytes(b.cus_rad_raw as u16), 0));
    lemma_u16_le_roundtrip(b.crc_rad_raw as u16);
    lemma_i16_u16_roundtrip(b.crc_rad_raw);
    assert(b.payload().subrange(42, 44) =~= u16_le_bytes(b.crc_rad_raw as u16));
    assert(le_u16(b.payload(), 42) == le_u16(u16_le_bytes(b.crc_rad_raw as u16), 0));
    lemma_u16_le_roundtrip(b.crs_rad_raw as u16);
    lemma_i16_u16_roundtrip(b.crs_rad_raw);
    assert(b.payload().subrange(44, 46) =~= u16_le_bytes(b.crs_rad_raw as u16));
    assert(le_u16(b.payload(), 44) == le_u16(u16_le_bytes(b.crs_rad_raw as u16), 0));
    lemma_u16_le_roundtrip(b.cic_rad_raw as u16);
    lemma_i16_u16_roundtrip(b.cic_rad_raw);
    assert(b.payload().subrange(46, 48) =~= u16_le_bytes(b.cic_rad_raw as u16));
    assert(le_u16(b.payload(), 46) == le_u16(u16_le_bytes(b.cic_rad_raw as u16), 0));
    lemma_u16_le_roundtrip(b.cis_rad_raw as u16);
    lemma_i16_u16_roundtrip(b.cis_rad_raw);
    assert(b.payload().subrange(48, 50) =~= u16_le_bytes(b.cis_rad_raw as u16));
    assert(le_u16(b.payload(), 48) == le_u16(u16_le_bytes(b.cis_rad_raw as u16), 0));
    lemma_u16_le_roundtrip(b.toe_raw);
    assert(b.payload().subrange(50, 52) =~= u16_le_bytes(b.toe_raw));
    assert(le_u16(b.payload(), 50) == le_u16(u16_le_bytes(b.toe_raw), 0));
    lemma_u32_le_roundtrip(b.af0_raw as u32);
    lemma_i32_u32_roundtrip(b.af0_raw);
    assert(b.payload().subrange(52, 56) =~= u32_le_bytes(b.af0_raw as u32));
    assert(le_u32(b.payload(), 52) == le_u32(u32_le_bytes(b.af0_raw as u32), 0));
    lemma_u32_le_roundtrip(b.af1_raw as u32);
    lemma_i32_u32_roundtrip(b.af1_raw);
    assert(b.payload().subrange(56, 60) =~= u32_le_bytes(b.af1_raw as u32));
    assert(le_u32(b.payload(), 56) == le_u32(u32_le_bytes(b.af1_raw as u32), 0));
    lemma_i8_u8_roundtrip(b.af2_raw);
    assert(b.payload()[60] == b.af2_raw as u8);
    assert(b.payload()[61] == b.sisa_e1_e5b);
    lemma_u16_le_roundtrip(b.toc_raw);
    assert(b.payload().subrange(62, 64) =~= u16_le_bytes(b.toc_raw));
    assert(le_u16(b.payload(), 62) == le_u16(u16_le_bytes(b.toc_raw), 0));
    lemma_u16_le_roundtrip(b.bgd_e1_e5b_s_raw as u16);
    lemma_i16_u16_roundtrip(b.bgd_e1_e5b_s_raw);
    assert(b.payload().subrange(64, 66) =~= u16_le_bytes(b.bgd_e1_e5b_s_raw as u16));
    assert(le_u16(b.payload(), 64) == le_u16(u16_le_bytes(b.bgd_e1_e5b_s_raw as u16), 0));
    assert(b.payload().subrange(66, 68) =~= b.reserved2@);
    assert(b.payload()[68] == b.e1b_health);
    assert(b.payload()[69] == b.e1b_validity);
    assert(b.payload()[70] == b.e5b_health);
    assert(b.payload()[71] == b.e5b_validity);
    assert(b.payload().subrange(72, 76) =~= b.reserved3@);
}

/// The class, message id and longest payload of each packet type of this
/// module.
pub proof fn lemma_packet_ids()
    ensures
        MgaGalEph::CLASS == 0x13,
        MgaGalEph::ID == 0x02,
        MgaGalEph::MAX_PAYLOAD_LEN == 76,
{
}

} // verus!
