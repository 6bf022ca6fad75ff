use vstd::prelude::*;

use crate::buffer::slice_subrange;
use crate::error::ParserError;
use crate::ubx_packets::bytes_le::{le_u32, read_i32_le, read_u32_le};
use crate::ubx_packets::bytes_le::{u16_le_bytes, u16_to_le, u32_le_bytes, u32_to_le};
use crate::ubx_packets::frame::{build_frame, extend_vec, lemma_ubx_frame_layout, ubx_frame, vec_into_array};
use crate::error::MemWriterError;
use crate::ubx_packets::writer::{MemWriter, UbxPacketCreator};
use crate::ubx_packets::bytes_le::{lemma_i32_u32_roundtrip, lemma_i8_u8_roundtrip, lemma_u32_le_roundtrip};
use crate::ubx_packets::UbxPacketMeta;

verus! {

/// Time mode settings 3.
pub struct CfgTmode3;

impl UbxPacketMeta for CfgTmode3 {
    const CLASS: u8 = 0x06;
    const ID: u8 = 0x71;
    const MAX_PAYLOAD_LEN: u16 = 40;

    fn fixed_payload_len() -> (r: Option<u16>)
        ensures
            r == Some(40u16),
    {
        Some(40)
    }
}

/// Payload of a [CfgTmode3] packet.
pub struct CfgTmode3Ref<'a>(pub &'a [u8]);

impl<'a> CfgTmode3Ref<'a> {
    /// The outcome of validating a payload: its length, then each field
    /// that only allows some values.
    pub open spec fn spec_validate(payload: Seq<u8>) -> Result<(), ParserError> {
        if payload.len() != 40 {
            Err(ParserError::InvalidPacketLen { packet: "CfgTmode3", expect: 40, got: payload.len() as usize })
        }
        else {
            Ok(())
        }
    }

    /// Checks that `payload` is a valid [CfgTmode3] payload.
    pub fn validate(payload: &[u8]) -> (r: Result<(), ParserError>)
        ensures
            r == Self::spec_validate(payload@),
    {
        if payload.len() != 40 {
            return Err(ParserError::InvalidPacketLen { packet: "CfgTmode3", expect: 40, got: payload.len() });
        }
        Ok(())
    }

    /// Length of the payload.
    pub fn payload_len(&self) -> (r: usize)
        ensures
            r == self.0@.len(),
    {
        self.0.len()
    }

    pub fn version(&self) -> (r: u8)
        requires
            Self::spec_validate(self.0@) is Ok,
        ensures
            r == self.0@[0],
    {
        self.0[0]
    }

    pub fn reserved1(&self) -> (r: u8)
        requires
            Self::spec_validate(self.0@) is Ok,
        ensures
            r == self.0@[1],
    {
        self.0[1]
    }

    /// Receiver mode (raw bits).
    pub fn rcvr_mode(&self) -> (r: u8)
        requires
            Self::spec_validate(self.0@) is Ok,
        ensures
            r == self.0@[2],
    {
        self.0[2]
    }

    /// Raw bits.
    pub fn flags(&self) -> (r: u8)
        requires
            Self::spec_validate(self.0@) is Ok,
        ensures
            r == self.0@[3],
    {
        self.0[3]
    }

    /// ECEF x (cm) or latitude (1e-7 deg), as `flags` says.
    pub fn ecef_x_or_lat_raw(&self) -> (r: i32)
        requires
            Self::spec_validate(self.0@) is Ok,
        ensures
            r == le_u32(self.0@, 4) as i32,
    {
        read_i32_le(self.0, 4)
    }

    /// ECEF y (cm) or longitude (1e-7 deg), as `flags` says.
    pub fn ecef_y_or_lon_raw(&self) -> (r: i32)
        requires
            Self::spec_validate(self.0@) is Ok,
        ensures
            r == le_u32(self.0@, 8) as i32,
    {
        read_i32_le(self.0, 8)
    }

    /// ECEF z or altitude (cm), as `flags` says.
    pub fn ecef_z_or_alt_raw(&self) -> (r: i32)
        requires
            Self::spec_validate(self.0@) is Ok,
        ensures
            r == le_u32(self.0@, 12) as i32,
    {
        read_i32_le(self.0, 12)
    }

    /// High-precision part of x or latitude.
    pub fn ecef_x_or_lat_hp_raw(&self) -> (r: i8)
        requires
            Self::spec_validate(self.0@) is Ok,
        ensures
            r == self.0@[16] as i8,
    {
        self.0[16] as i8
    }

    /// High-precision part of y or longitude.
    pub fn ecef_y_or_lon_hp_raw(&self) -> (r: i8)
        requires
            Self::spec_validate(self.0@) is Ok,
        ensures
            r == self.0@[17] as i8,
    {
        self.0[17] as i8
    }

    /// High-precision part of z or altitude.
    pub fn ecef_z_or_alt_hp_raw(&self) -> (r: i8)
        requires
            Self::spec_validate(self.0@) is Ok,
        ensures
            r == self.0@[18] as i8,
    {
        self.0[18] as i8
    }

    pub fn reserved2(&self) -> (r: u8)
        requires
            Self::spec_validate(self.0@) is Ok,
        ensures
            r == self.0@[19],
    {
        self.0[19]
    }

    /// Fixed position 3D accuracy (0.1 mm).
    pub fn fixed_pos_acc_raw(&self) -> (r: u32)
        requires
            Self::spec_validate(self.0@) is Ok,
        ensures
            r == le_u32(self.0@, 20),
    {
        read_u32_le(self.0, 20)
    }

    /// Survey-in minimum duration (s).
    pub fn sv_in_min_duration(&self) -> (r: u32)
        requires
            Self::spec_validate(self.0@) is Ok,
        ensures
            r == le_u32(self.0@, 24),
    {
        read_u32_le(self.0, 24)
    }

    /// Survey-in position accuracy limit (0.1 mm).
    pub fn sv_in_accur_limit_raw(&self) -> (r: u32)
        requires
            Self::spec_validate(self.0@) is Ok,
        ensures
            r == le_u32(self.0@, 28),
    {
        read_u32_le(self.0, 28)
    }

    pub fn reserved3(&self) -> (r: &[u8])
        requires
            Self::spec_validate(self.0@) is Ok,
        ensures
            r@ == self.0@.subrange(32, 40),
    {
        slice_subrange(self.0, 32, 40)
    }

}

/// Builder of [CfgTmode3] packets: the raw values of the fields.
pub struct CfgTmode3Builder {
    pub version: u8,
    pub reserved1: u8,
    /// Receiver mode (raw bits).
    pub rcvr_mode: u8,
    /// Raw bits.
    pub flags: u8,
    /// ECEF x (cm) or latitude (1e-7 deg), as `flags` says.
    pub ecef_x_or_lat_raw: i32,
    /// ECEF y (cm) or longitude (1e-7 deg), as `flags` says.
    pub ecef_y_or_lon_raw: i32,
    /// ECEF z or altitude (cm), as `flags` says.
    pub ecef_z_or_alt_raw: i32,
    /// High-precision part of x or latitude.
    pub ecef_x_or_lat_hp_raw: i8,
    /// High-precision part of y or longitude.
    pub ecef_y_or_lon_hp_raw: i8,
    /// High-precision part of z or altitude.
    pub ecef_z_or_alt_hp_raw: i8,
    pub reserved2: u8,
    /// Fixed position 3D accuracy (0.1 mm).
    pub fixed_pos_acc_raw: u32,
    /// Survey-in minimum duration (s).
    pub sv_in_min_duration: u32,
    /// Survey-in position accuracy limit (0.1 mm).
    pub sv_in_accur_limit_raw: u32,
    pub reserved3: [u8; 8],
}

impl CfgTmode3Builder {
    /// The payload these fields make.
    pub open spec fn payload(&self) -> Seq<u8> {
        seq![self.version]
            + seq![self.reserved1]
            + seq![self.rcvr_mode]
            + seq![self.flags]
            + u32_le_bytes(self.ecef_x_or_lat_raw as u32)
            + u32_le_bytes(self.ecef_y_or_lon_raw as u32)
            + u32_le_bytes(self.ecef_z_or_alt_raw as u32)
            + seq![self.ecef_x_or_lat_hp_raw as u8]
            + seq![self.ecef_y_or_lon_hp_raw as u8]
            + seq![self.ecef_z_or_alt_hp_raw as u8]
            + seq![self.reserved2]
            + u32_le_bytes(self.fixed_pos_acc_raw)
            + u32_le_bytes(self.sv_in_min_duration)
            + u32_le_bytes(self.sv_in_accur_limit_raw)
            + self.reserved3@
    }

    /// The whole packet frame.
    pub fn into_packet_bytes(self) -> (r: [u8; 48])
        ensures
            r@ == ubx_frame(CfgTmode3::CLASS, CfgTmode3::ID, self.payload()),
    {
        let mut payload: Vec<u8> = Vec::new();
        payload.push(self.version);
        payload.push(self.reserved1);
        payload.push(self.rcvr_mode);
        payload.push(self.flags);
        extend_vec(&mut payload, u32_to_le(self.ecef_x_or_lat_raw as u32).as_slice());
        extend_vec(&mut payload, u32_to_le(self.ecef_y_or_lon_raw as u32).as_slice());
        extend_vec(&mut payload, u32_to_le(self.ecef_z_or_alt_raw as u32).as_slice());
        payload.push(self.ecef_x_or_lat_hp_raw as u8);
        payload.push(self.ecef_y_or_lon_hp_raw as u8);
        payload.push(self.ecef_z_or_alt_hp_raw as u8);
        payload.push(self.reserved2);
        extend_vec(&mut payload, u32_to_le(self.fixed_pos_acc_raw).as_slice());
        extend_vec(&mut payload, u32_to_le(self.sv_in_min_duration).as_slice());
        extend_vec(&mut payload, u32_to_le(self.sv_in_accur_limit_raw).as_slice());
        extend_vec(&mut payload, self.reserved3.as_slice());
        proof {
            assert(payload@ =~= self.payload());
            lemma_ubx_frame_layout(CfgTmode3::CLASS, CfgTmode3::ID, payload@, Seq::<u8>::empty());
            assert(ubx_frame(CfgTmode3::CLASS, CfgTmode3::ID, payload@) + Seq::<u8>::empty() =~= ubx_frame(
                CfgTmode3::CLASS,
                CfgTmode3::ID,
                payload@,
            ));
        }
        let frame = build_frame(CfgTmode3::CLASS, CfgTmode3::ID, payload.as_slice());
        vec_into_array::<48>(&frame)
    }
}

impl UbxPacketCreator for CfgTmode3Builder {
    open spec fn packet_bytes(&self) -> Seq<u8> {
        ubx_frame(CfgTmode3::CLASS, CfgTmode3::ID, self.payload())
    }

    fn create_packet<T: MemWriter>(self, out: &mut T) -> (r: Result<(), MemWriterError<T::Error>>) {
        let bytes = self.into_packet_bytes();
        out.reserve_allocate(48)?;
        out.write(bytes.as_slice())
    }
}

impl Default for CfgTmode3Builder {
    fn default() -> (r: Self)
        ensures
            r.version == 0,
            r.reserved1 == 0,
            r.rcvr_mode == 0,
            r.flags == 0,
            r.ecef_x_or_lat_raw == 0,
            r.ecef_y_or_lon_raw == 0,
            r.ecef_z_or_alt_raw == 0,
            r.ecef_x_or_lat_hp_raw == 0,
            r.ecef_y_or_lon_hp_raw == 0,
            r.ecef_z_or_alt_hp_raw == 0,
            r.reserved2 == 0,
            r.fixed_pos_acc_raw == 0,
            r.sv_in_min_duration == 0,
            r.sv_in_accur_limit_raw == 0,
            r.reserved3@ == Seq::<u8>::new(8, |i: int| 0u8),
    {
        let r = CfgTmode3Builder { version: 0, reserved1: 0, rcvr_mode: 0, flags: 0, ecef_x_or_lat_raw: 0, ecef_y_or_lon_raw: 0, ecef_z_or_alt_raw: 0, ecef_x_or_lat_hp_raw: 0, ecef_y_or_lon_hp_raw: 0, ecef_z_or_alt_hp_raw: 0, reserved2: 0, fixed_pos_acc_raw: 0, sv_in_min_duration: 0, sv_in_accur_limit_raw: 0, reserved3: [0u8; 8] };
        proof {
            assert(r.reserved3@ =~= Seq::<u8>::new(8, |i: int| 0u8));
        }
        r
    }
}

/// Reading back what a [CfgTmode3Builder] writes: the payload validates, and
/// each getter of [CfgTmode3Ref] gives the builder's field.
pub proof fn lemma_cfg_tmode3_fields_roundtrip(b: CfgTmode3Builder)
    ensures
        CfgTmode3Ref::spec_validate(b.payload()) is Ok,
        b.payload()[0] == b.version,
        b.payload()[1] == b.reserved1,
        b.payload()[2] == b.rcvr_mode,
        b.payload()[3] == b.flags,
        le_u32(b.payload(), 4) as i32 == b.ecef_x_or_lat_raw,
        le_u32(b.payload(), 8) as i32 == b.ecef_y_or_lon_raw,
        le_u32(b.payload(), 12) as i32 == b.ecef_z_or_alt_raw,
        b.payload()[16] as i8 == b.ecef_x_or_lat_hp_raw,
        b.payload()[17] as i8 == b.ecef_y_or_lon_hp_raw,
        b.payload()[18] as i8 == b.ecef_z_or_alt_hp_raw,
        b.payload()[19] == b.reserved2,
        le_u32(b.payload(), 20) == b.fixed_pos_acc_raw,
        le_u32(b.payload(), 24) == b.sv_in_min_duration,
        le_u32(b.payload(), 28) == b.sv_in_accur_limit_raw,
        b.payload().subrange(32, 40) == b.reserved3@,
{
    assert(b.payload().len() == 40);
    assert(b.payload()[0] == b.version);
    assert(b.payload()[1] == b.reserved1);
    assert(b.payload()[2] == b.rcvr_mode);
    assert(b.payload()[3] == b.flags);
    lemma_u32_le_roundtrip(b.ecef_x_or_lat_raw as u32);
    lemma_i32_u32_roundtrip(b.ecef_x_or_lat_raw);
    assert(b.payload().subrange(4, 8) =~= u32_le_bytes(b.ecef_x_or_lat_raw as u32));
    assert(le_u32(b.payload(), 4) == le_u32(u32_le_bytes(b.ecef_x_or_lat_raw as u32), 0));
    lemma_u32_le_roundtrip(b.ecef_y_or_lon_raw as u32);
    lemma_i32_u32_roundtrip(b.ecef_y_or_lon_raw);
    assert(b.payload().subrange(8, 12) =~= u32_le_bytes(b.ecef_y_or_lon_raw as u32));
    assert(le_u32(b.payload(), 8) == le_u32(u32_le_bytes(b.ecef_y_or_lon_raw as u32), 0));
    lemma_u32_le_roundtrip(b.ecef_z_or_alt_raw as u32);
    lemma_i32_u32_roundtrip(b.ecef_z_or_alt_raw);
    assert(b.payload().subrange(12, 16) =~= u32_le_bytes(b.ecef_z_or_alt_raw as u32));
    assert(le_u32(b.payload(), 12) == le_u32(u32_le_bytes(b.ecef_z_or_alt_raw as u32), 0));
    lemma_i8_u8_roundtrip(b.ecef_x_or_lat_hp_raw);
    assert(b.payload()[16] == b.ecef_x_or_lat_hp_raw as u8);
    lemma_i8_u8_roundtrip(b.ecef_y_or_lon_hp_raw);
    assert(b.payload()[17] == b.ecef_y_or_lon_hp_raw as u8);
    lemma_i8_u8_roundtrip(b.ecef_z_or_alt_hp_raw);
    assert(b.payload()[18] == b.ecef_z_or_alt_hp_raw as u8);
    assert(b.payload()[19] == b.reserved2);
    lemma_u32_le_roundtrip(b.fixed_pos_acc_raw);
    assert(b.payload().subrange(20, 24) =~= u32_le_bytes(b.fixed_pos_acc_raw));
    assert(le_u32(b.payload(), 20) == le_u32(u32_le_bytes(b.fixed_pos_acc_raw), 0));
    lemma_u32_le_roundtrip(b.sv_in_min_duration);
    assert(b.payload().subrange(24, 28) =~= u32_le_bytes(b.sv_in_min_duration));
    assert(le_u32(b.payload(), 24) == le_u32(u32_le_bytes(b.sv_in_min_duration), 0));
    lemma_u32_le_roundtrip(b.sv_in_accur_limit_raw);
    assert(b.payload().subrange(28, 32) =~= u32_le_bytes(b.sv_in_accur_limit_raw));
    assert(le_u32(b.payload(), 28) == le_u32(u32_le_bytes(b.sv_in_accur_limit_raw), 0));
    assert(b.payload().subrange(32, 40) =~= b.reserved3@);
}

/// The class, message id and longest payload of each packet type of this
/// module.
pub proof fn lemma_packet_ids()
    ensures
        CfgTmode3::CLASS == 0x06,
        CfgTmode3::ID == 0x71,
        CfgTmode3::MAX_PAYLOAD_LEN == 40,
{
}

} // verus!
