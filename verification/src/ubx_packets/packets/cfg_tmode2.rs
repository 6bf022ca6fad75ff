use vstd::prelude::*;

use crate::error::ParserError;
use crate::ubx_packets::bytes_le::{le_u16, le_u32, read_i32_le, read_u16_le, read_u32_le};
use crate::ubx_packets::bytes_le::{u16_le_bytes, u16_to_le, u32_le_bytes, u32_to_le};
use crate::ubx_packets::frame::{build_frame, extend_vec, lemma_ubx_frame_layout, ubx_frame, vec_into_array};
use crate::error::MemWriterError;
use crate::ubx_packets::writer::{MemWriter, UbxPacketCreator};
use crate::ubx_packets::bytes_le::{lemma_i32_u32_roundtrip, lemma_u16_le_roundtrip, lemma_u32_le_roundtrip};
use crate::ubx_packets::UbxPacketMeta;
use crate::ubx_packets::packets::enums::{CfgTModeModes};

verus! {

/// Time mode settings.
pub struct CfgTmode2;

impl UbxPacketMeta for CfgTmode2 {
    const CLASS: u8 = 0x06;
    const ID: u8 = 0x3d;
    const MAX_PAYLOAD_LEN: u16 = 28;

    fn fixed_payload_len() -> (r: Option<u16>)
        ensures
            r == Some(28u16),
    {
        Some(28)
    }
}

/// Payload of a [CfgTmode2] packet.
pub struct CfgTmode2Ref<'a>(pub &'a [u8]);

impl<'a> CfgTmode2Ref<'a> {
    /// The outcome of validating a payload: its length, then each field
    /// that only allows some values.
    pub open spec fn spec_validate(payload: Seq<u8>) -> Result<(), ParserError> {
        if payload.len() != 28 {
            Err(ParserError::InvalidPacketLen { packet: "CfgTmode2", expect: 28, got: payload.len() as usize })
        }
        else if !CfgTModeModes::spec_is_valid(payload[0]) {
            Err(ParserError::InvalidField { packet: "CfgTmode2", field: "time_transfer_mode" })
        }
        else {
            Ok(())
        }
    }

    /// Checks that `payload` is a valid [CfgTmode2] payload.
    pub fn validate(payload: &[u8]) -> (r: Result<(), ParserError>)
        ensures
            r == Self::spec_validate(payload@),
    {
        if payload.len() != 28 {
            return Err(ParserError::InvalidPacketLen { packet: "CfgTmode2", expect: 28, got: payload.len() });
        }
        if !CfgTModeModes::is_valid(payload[0]) {
            return Err(ParserError::InvalidField { packet: "CfgTmode2", field: "time_transfer_mode" });
        }
        Ok(())
    }

    /// Length of the payload.
    pub fn payload_len(&self) -> (r: usize)
        ensures
            r == self.0@.len(),
    {
        self.0.len()
    }

    /// Time transfer mode.
    pub fn time_transfer_mode_raw(&self) -> (r: u8)
        requires
            Self::spec_validate(self.0@) is Ok,
        ensures
            r == self.0@[0],
    {
        self.0[0]
    }

    /// Time transfer mode.
    pub fn time_transfer_mode(&self) -> (r: CfgTModeModes)
        requires
            Self::spec_validate(self.0@) is Ok,
        ensures
            r == CfgTModeModes::spec_from_raw(self.0@[0]),
    {
        CfgTModeModes::from_unchecked(self.0[0])
    }

    pub fn reserved1(&self) -> (r: u8)
        requires
            Self::spec_validate(self.0@) is Ok,
        ensures
            r == self.0@[1],
    {
        self.0[1]
    }

    /// Raw bits.
    pub fn flags(&self) -> (r: u16)
        requires
            Self::spec_validate(self.0@) is Ok,
        ensures
            r == le_u16(self.0@, 2),
    {
        read_u16_le(self.0, 2)
    }

    /// ECEF x (cm) or latitude (1e-7 deg), as `flags` says.
    pub fn ecef_x_or_lat_raw(&self) -> (r: i32)
        requires
            Self::spec_validate(self.0@) is Ok,
        ensures
            r == le_u32(self.0@, 4) as i32,
    {
        read_i32_le(self.0, 4)
    }

    /// ECEF y (cm) or longitude (1e-7 deg), as `flags` says.
    pub fn ecef_y_or_lon_raw(&self) -> (r: i32)
        requires
            Self::spec_validate(self.0@) is Ok,
        ensures
            r == le_u32(self.0@, 8) as i32,
    {
        read_i32_le(self.0, 8)
    }

    /// ECEF z or altitude (cm), as `flags` says.
    pub fn ecef_z_or_alt_raw(&self) -> (r: i32)
        requires
            Self::spec_validate(self.0@) is Ok,
        ensures
            r == le_u32(self.0@, 12) as i32,
    {
        read_i32_le(self.0, 12)
    }

    /// Fixed position 3D accuracy (mm).
    pub fn fixed_pos_acc_raw(&self) -> (r: u32)
        requires
            Self::spec_validate(self.0@) is Ok,
        ensures
            r == le_u32(self.0@, 16),
    {
        read_u32_le(self.0, 16)
    }

    /// Survey-in minimum duration (s).
    pub fn survey_in_min_duration(&self) -> (r: u32)
        requires
            Self::spec_validate(self.0@) is Ok,
        ensures
            r == le_u32(self.0@, 20),
    {
        read_u32_le(self.0, 20)
    }

    /// Survey-in position accuracy limit (mm).
    pub fn survey_in_accur_limit_raw(&self) -> (r: u32)
        requires
            Self::spec_validate(self.0@) is Ok,
        ensures
            r == le_u32(self.0@, 24),
    {
        read_u32_le(self.0, 24)
    }

}

/// Builder of [CfgTmode2] packets: the raw values of the fields.
pub struct CfgTmode2Builder {
    /// Time transfer mode.
    pub time_transfer_mode: CfgTModeModes,
    pub reserved1: u8,
    /// Raw bits.
    pub flags: u16,
    /// ECEF x (cm) or latitude (1e-7 deg), as `flags` says.
    pub ecef_x_or_lat_raw: i32,
    /// ECEF y (cm) or longitude (1e-7 deg), as `flags` says.
    pub ecef_y_or_lon_raw: i32,
    /// ECEF z or altitude (cm), as `flags` says.
    pub ecef_z_or_alt_raw: i32,
    /// Fixed position 3D accuracy (mm).
    pub fixed_pos_acc_raw: u32,
    /// Survey-in minimum duration (s).
    pub survey_in_min_duration: u32,
    /// Survey-in position accuracy limit (mm).
    pub survey_in_accur_limit_raw: u32,
}

impl CfgTmode2Builder {
    /// The payload these fields make.
    pub open spec fn payload(&self) -> Seq<u8> {
        seq![self.time_transfer_mode.spec_into_raw()]
            + seq![self.reserved1]
            + u16_le_bytes(self.flags)
            + u32_le_bytes(self.ecef_x_or_lat_raw as u32)
            + u32_le_bytes(self.ecef_y_or_lon_raw as u32)
            + u32_le_bytes(self.ecef_z_or_alt_raw as u32)
            + u32_le_bytes(self.fixed_pos_acc_raw)
            + u32_le_bytes(self.survey_in_min_duration)
            + u32_le_bytes(self.survey_in_accur_limit_raw)
    }

    /// The whole packet frame.
    pub fn into_packet_bytes(self) -> (r: [u8; 36])
        ensures
            r@ == ubx_frame(CfgTmode2::CLASS, CfgTmode2::ID, self.payload()),
    {
        let mut payload: Vec<u8> = Vec::new();
        payload.push(self.time_transfer_mode.into_raw());
        payload.push(self.reserved1);
        extend_vec(&mut payload, u16_to_le(self.flags).as_slice());
        extend_vec(&mut payload, u32_to_le(self.ecef_x_or_lat_raw as u32).as_slice());
        extend_vec(&mut payload, u32_to_le(self.ecef_y_or_lon_raw as u32).as_slice());
        extend_vec(&mut payload, u32_to_le(self.ecef_z_or_alt_raw as u32).as_slice());
        extend_vec(&mut payload, u32_to_le(self.fixed_pos_acc_raw).as_slice());
        extend_vec(&mut payload, u32_to_le(self.survey_in_min_duration).as_slice());
        extend_vec(&mut payload, u32_to_le(self.survey_in_accur_limit_raw).as_slice());
        proof {
            assert(payload@ =~= self.payload());
            lemma_ubx_frame_layout(CfgTmode2::CLASS, CfgTmode2::ID, payload@, Seq::<u8>::empty());
            assert(ubx_frame(CfgTmode2::CLASS, CfgTmode2::ID, payload@) + Seq::<u8>::empty() =~= ubx_frame(
                CfgTmode2::CLASS,
                CfgTmode2::ID,
                payload@,
            ));
        }
        let frame = build_frame(CfgTmode2::CLASS, CfgTmode2::ID, payload.as_slice());
        vec_into_array::<36>(&frame)
    }
}

impl UbxPacketCreator for CfgTmode2Builder {
    open spec fn packet_bytes(&self) -> Seq<u8> {
        ubx_frame(CfgTmode2::CLASS, CfgTmode2::ID, self.payload())
    }

    fn create_packet<T: MemWriter>(self, out: &mut T) -> (r: Result<(), MemWriterError<T::Error>>) {
        let bytes = self.into_packet_bytes();
        out.reserve_allocate(36)?;
        out.write(bytes.as_slice())
    }
}

impl Default for CfgTmode2Builder {
    fn default() -> (r: Self)
        ensures
            r.time_transfer_mode == CfgTModeModes::Disabled,
            r.reserved1 == 0,
            r.flags == 0,
            r.ecef_x_or_lat_raw == 0,
            r.ecef_y_or_lon_raw == 0,
            r.ecef_z_or_alt_raw == 0,
            r.fixed_pos_acc_raw == 0,
            r.survey_in_min_duration == 0,
            r.survey_in_accur_limit_raw == 0,
    {
        let r = CfgTmode2Builder { time_transfer_mode: CfgTModeModes::Disabled, reserved1: 0, flags: 0, ecef_x_or_lat_raw: 0, ecef_y_or_lon_raw: 0, ecef_z_or_alt_raw: 0, fixed_pos_acc_raw: 0, survey_in_min_duration: 0, survey_in_accur_limit_raw: 0 };
        r
    }
}

/// Reading back what a [CfgTmode2Builder] writes: the payload validates, and
/// each getter of [CfgTmode2Ref] gives the builder's field.
pub proof fn lemma_cfg_tmode2_fields_roundtrip(b: CfgTmode2Builder)
    ensures
        CfgTmode2Ref::spec_validate(b.payload()) is Ok,
        CfgTModeModes::spec_from_raw(b.payload()[0]) == b.time_transfer_mode,
        b.payload()[1] == b.reserved1,
        le_u16(b.payload(), 2) == b.flags,
        le_u32(b.payload(), 4) as i32 == b.ecef_x_or_lat_raw,
        le_u32(b.payload(), 8) as i32 == b.ecef_y_or_lon_raw,
        le_u32(b.payload(), 12) as i32 == b.ecef_z_or_alt_raw,
        le_u32(b.payload(), 16) == b.fixed_pos_acc_raw,
        le_u32(b.payload(), 20) == b.survey_in_min_duration,
        le_u32(b.payload(), 24) == b.survey_in_accur_limit_raw,
{
    assert(b.payload().len() == 28);
    b.time_transfer_mode.lemma_raw_roundtrip();
    assert(b.payload()[0] == b.time_transfer_mode.spec_into_raw());
    assert(b.payload()[1] == b.reserved1);
    lemma_u16_le_roundtrip(b.flags);
    assert(b.payload().subrange(2, 4) =~= u16_le_bytes(b.flags));
    assert(le_u16(b.payload(), 2) == le_u16(u16_le_bytes(b.flags), 0));
    lemma_u32_le_roundtrip(b.ecef_x_or_lat_raw as u32);
    lemma_i32_u32_roundtrip(b.ecef_x_or_lat_raw);
    assert(b.payload().subrange(4, 8) =~= u32_le_bytes(b.ecef_x_or_lat_raw as u32));
    assert(le_u32(b.payload(), 4) == le_u32(u32_le_bytes(b.ecef_x_or_lat_raw as u32), 0));
    lemma_u32_le_roundtrip(b.ecef_y_or_lon_raw as u32);
    lemma_i32_u32_roundtrip(b.ecef_y_or_lon_raw);
    assert(b.payload().subrange(8, 12) =~= u32_le_bytes(b.ecef_y_or_lon_raw as u32));
    assert(le_u32(b.payload(), 8) == le_u32(u32_le_bytes(b.ecef_y_or_lon_raw as u32), 0));
    lemma_u32_le_roundtrip(b.ecef_z_or_alt_raw as u32);
    lemma_i32_u32_roundtrip(b.ecef_z_or_alt_raw);
    assert(b.payload().subrange(12, 16) =~= u32_le_bytes(b.ecef_z_or_alt_raw as u32));
    assert(le_u32(b.payload(), 12) == le_u32(u32_le_bytes(b.ecef_z_or_alt_raw as u32), 0));
    lemma_u32_le_roundtrip(b.fixed_pos_acc_raw);
    assert(b.payload().subrange(16, 20) =~= u32_le_bytes(b.fixed_pos_acc_raw));
    assert(le_u32(b.payload(), 16) == le_u32(u32_le_bytes(b.fixed_pos_acc_raw), 0));
    lemma_u32_le_roundtrip(b.survey_in_min_duration);
    assert(b.payload().subrange(20, 24) =~= u32_le_bytes(b.survey_in_min_duration));
    assert(le_u32(b.payload(), 20) == le_u32(u32_le_bytes(b.survey_in_min_duration), 0));
    lemma_u32_le_roundtrip(b.survey_in_accur_limit_raw);
    assert(b.payload().subrange(24, 28) =~= u32_le_bytes(b.survey_in_accur_limit_raw));
    assert(le_u32(b.payload(), 24) == le_u32(u32_le_bytes(b.survey_in_accur_limit_raw), 0));
}

/// The class, message id and longest payload of each packet type of this
/// module.
pub proof fn lemma_packet_ids()
    ensures
        CfgTmode2::CLASS == 0x06,
        CfgTmode2::ID == 0x3d,
        CfgTmode2::MAX_PAYLOAD_LEN == 28,
{
}

} // verus!
