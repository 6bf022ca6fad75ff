use vstd::prelude::*;

use crate::buffer::slice_subrange;
use crate::error::ParserError;
use crate::ubx_packets::bytes_le::{le_u16, le_u32, read_i16_le, read_i32_le, read_u16_le, read_u32_le};
use crate::ubx_packets::bytes_le::{u16_le_bytes, u16_to_le, u32_le_bytes, u32_to_le};
use crate::ubx_packets::frame::{build_frame, extend_vec, lemma_ubx_frame_layout, ubx_frame, vec_into_array};
use crate::error::MemWriterError;
use crate::ubx_packets::writer::{MemWriter, UbxPacketCreator};
use crate::ubx_packets::bytes_le::{lemma_i16_u16_roundtrip, lemma_i32_u32_roundtrip, lemma_i8_u8_roundtrip, lemma_u16_le_roundtrip, lemma_u32_le_roundtrip};
use crate::ubx_packets::UbxPacketMeta;
use crate::ubx_packets::packets::enums::{NavDynamicModel, NavFixMode, UtcStandardIdentifier, OdoProfile, UartPortId, SpiPortId, I2cPortId, ResetMode};

verus! {

/// Navigation Engine Settings.
pub struct CfgNav5;

impl UbxPacketMeta for CfgNav5 {
    const CLASS: u8 = 0x06;
    const ID: u8 = 0x24;
    const MAX_PAYLOAD_LEN: u16 = 36;

    fn fixed_payload_len() -> (r: Option<u16>)
        ensures
            r == Some(36u16),
    {
        Some(36)
    }
}

/// Payload of a [CfgNav5] packet.
pub struct CfgNav5Ref<'a>(pub &'a [u8]);

impl<'a> CfgNav5Ref<'a> {
    /// The outcome of validating a payload: its length, then each field
    /// that only allows some values.
    pub open spec fn spec_validate(payload: Seq<u8>) -> Result<(), ParserError> {
        if payload.len() != 36 {
            Err(ParserError::InvalidPacketLen { packet: "CfgNav5", expect: 36, got: payload.len() as usize })
        }
        else if !NavDynamicModel::spec_is_valid(payload[2]) {
            Err(ParserError::InvalidField { packet: "CfgNav5", field: "dyn_model" })
        }
        else if !NavFixMode::spec_is_valid(payload[3]) {
            Err(ParserError::InvalidField { packet: "CfgNav5", field: "fix_mode" })
        }
        else if !UtcStandardIdentifier::spec_is_valid(payload[30]) {
            Err(ParserError::InvalidField { packet: "CfgNav5", field: "utc_standard" })
        }
        else {
            Ok(())
        }
    }

    /// Checks that `payload` is a valid [CfgNav5] payload.
    pub fn validate(payload: &[u8]) -> (r: Result<(), ParserError>)
        ensures
            r == Self::spec_validate(payload@),
    {
        if payload.len() != 36 {
            return Err(ParserError::InvalidPacketLen { packet: "CfgNav5", expect: 36, got: payload.len() });
        }
        if !NavDynamicModel::is_valid(payload[2]) {
            return Err(ParserError::InvalidField { packet: "CfgNav5", field: "dyn_model" });
        }
        if !NavFixMode::is_valid(payload[3]) {
            return Err(ParserError::InvalidField { packet: "CfgNav5", field: "fix_mode" });
        }
        if !UtcStandardIdentifier::is_valid(payload[30]) {
            return Err(ParserError::InvalidField { packet: "CfgNav5", field: "utc_standard" });
        }
        Ok(())
    }

    /// Length of the payload.
    pub fn payload_len(&self) -> (r: usize)
        ensures
            r == self.0@.len(),
    {
        self.0.len()
    }

    /// Only the masked parameters will be applied.
    pub fn mask(&self) -> (r: u16)
        requires
            Self::spec_validate(self.0@) is Ok,
        ensures
            r == le_u16(self.0@, 0),
    {
        read_u16_le(self.0, 0)
    }

    /// Dynamic platform model.
    pub fn dyn_model_raw(&self) -> (r: u8)
        requires
            Self::spec_validate(self.0@) is Ok,
        ensures
            r == self.0@[2],
    {
        self.0[2]
    }

    /// Dynamic platform model.
    pub fn dyn_model(&self) -> (r: NavDynamicModel)
        requires
            Self::spec_validate(self.0@) is Ok,
        ensures
            r == NavDynamicModel::spec_from_raw(self.0@[2]),
    {
        NavDynamicModel::from_unchecked(self.0[2])
    }

    /// Position fixing mode.
    pub fn fix_mode_raw(&self) -> (r: u8)
        requires
            Self::spec_validate(self.0@) is Ok,
        ensures
            r == self.0@[3],
    {
        self.0[3]
    }

    /// Position fixing mode.
    pub fn fix_mode(&self) -> (r: NavFixMode)
        requires
            Self::spec_validate(self.0@) is Ok,
        ensures
            r == NavFixMode::spec_from_raw(self.0@[3]),
    {
        NavFixMode::from_unchecked(self.0[3])
    }

    /// Fixed altitude (mean sea level) for 2D fix mode, in units of 0.01 m.
    pub fn fixed_alt_raw(&self) -> (r: i32)
        requires
            Self::spec_validate(self.0@) is Ok,
        ensures
            r == le_u32(self.0@, 4) as i32,
    {
        read_i32_le(self.0, 4)
    }

    /// Fixed altitude variance for 2D mode, in units of 0.0001 m^2.
    pub fn fixed_alt_var_raw(&self) -> (r: u32)
        requires
            Self::spec_validate(self.0@) is Ok,
        ensures
            r == le_u32(self.0@, 8),
    {
        read_u32_le(self.0, 8)
    }

    /// Minimum elevation for a GNSS satellite to be used in NAV (deg).
    pub fn min_elev_degrees(&self) -> (r: i8)
        requires
            Self::spec_validate(self.0@) is Ok,
        ensures
            r == self.0@[12] as i8,
    {
        self.0[12] as i8
    }

    /// Reserved.
    pub fn dr_limit(&self) -> (r: u8)
        requires
            Self::spec_validate(self.0@) is Ok,
        ensures
            r == self.0@[13],
    {
        self.0[13]
    }

    /// Position DOP mask, in units of 0.1.
    pub fn pdop_raw(&self) -> (r: u16)
        requires
            Self::spec_validate(self.0@) is Ok,
        ensures
            r == le_u16(self.0@, 14),
    {
        read_u16_le(self.0, 14)
    }

    /// Time DOP mask, in units of 0.1.
    pub fn tdop_raw(&self) -> (r: u16)
        requires
            Self::spec_validate(self.0@) is Ok,
        ensures
            r == le_u16(self.0@, 16),
    {
        read_u16_le(self.0, 16)
    }

    /// Position accuracy mask (m).
    pub fn pacc(&self) -> (r: u16)
        requires
            Self::spec_validate(self.0@) is Ok,
        ensures
            r == le_u16(self.0@, 18),
    {
        read_u16_le(self.0, 18)
    }

    /// Time accuracy mask.
    pub fn tacc(&self) -> (r: u16)
        requires
            Self::spec_validate(self.0@) is Ok,
        ensures
            r == le_u16(self.0@, 20),
    {
        read_u16_le(self.0, 20)
    }

    /// Static hold threshold, in units of 0.01 m/s.
    pub fn static_hold_thresh_raw(&self) -> (r: u8)
        requires
            Self::spec_validate(self.0@) is Ok,
        ensures
            r == self.0@[22],
    {
        self.0[22]
    }

    /// DGNSS timeout (seconds).
    pub fn dgps_time_out(&self) -> (r: u8)
        requires
            Self::spec_validate(self.0@) is Ok,
        ensures
            r == self.0@[23],
    {
        self.0[23]
    }

    /// Number of satellites required to have C/N0 above `cno_thresh` for a fix to be attempted.
    pub fn cno_thresh_num_svs(&self) -> (r: u8)
        requires
            Self::spec_validate(self.0@) is Ok,
        ensures
            r == self.0@[24],
    {
        self.0[24]
    }

    /// C/N0 threshold for deciding whether to attempt a fix (dBHz).
    pub fn cno_thresh(&self) -> (r: u8)
        requires
            Self::spec_validate(self.0@) is Ok,
        ensures
            r == self.0@[25],
    {
        self.0[25]
    }

    pub fn reserved1(&self) -> (r: &[u8])
        requires
            Self::spec_validate(self.0@) is Ok,
        ensures
            r@ == self.0@.subrange(26, 28),
    {
        slice_subrange(self.0, 26, 28)
    }

    /// Static hold distance threshold (before quitting static hold).
    pub fn static_hold_max_dist(&self) -> (r: u16)
        requires
            Self::spec_validate(self.0@) is Ok,
        ensures
            r == le_u16(self.0@, 28),
    {
        read_u16_le(self.0, 28)
    }

    /// UTC standard to be used.
    pub fn utc_standard_raw(&self) -> (r: u8)
        requires
            Self::spec_validate(self.0@) is Ok,
        ensures
            r == self.0@[30],
    {
        self.0[30]
    }

    /// UTC standard to be used.
    pub fn utc_standard(&self) -> (r: UtcStandardIdentifier)
        requires
            Self::spec_validate(self.0@) is Ok,
        ensures
            r == UtcStandardIdentifier::spec_from_raw(self.0@[30]),
    {
        UtcStandardIdentifier::from_unchecked(self.0[30])
    }

    pub fn reserved2(&self) -> (r: &[u8])
        requires
            Self::spec_validate(self.0@) is Ok,
        ensures
            r@ == self.0@.subrange(31, 36),
    {
        slice_subrange(self.0, 31, 36)
    }

}

/// Builder of [CfgNav5] packets: the raw values of the fields.
pub struct CfgNav5Builder {
    /// Only the masked parameters will be applied.
    pub mask: u16,
    /// Dynamic platform model.
    pub dyn_model: NavDynamicModel,
    /// Position fixing mode.
    pub fix_mode: NavFixMode,
    /// Fixed altitude (mean sea level) for 2D fix mode, in units of 0.01 m.
    pub fixed_alt_raw: i32,
    /// Fixed altitude variance for 2D mode, in units of 0.0001 m^2.
    pub fixed_alt_var_raw: u32,
    /// Minimum elevation for a GNSS satellite to be used in NAV (deg).
    pub min_elev_degrees: i8,
    /// Reserved.
    pub dr_limit: u8,
    /// Position DOP mask, in units of 0.1.
    pub pdop_raw: u16,
    /// Time DOP mask, in units of 0.1.
    pub tdop_raw: u16,
    /// Position accuracy mask (m).
    pub pacc: u16,
    /// Time accuracy mask.
    pub tacc: u16,
    /// Static hold threshold, in units of 0.01 m/s.
    pub static_hold_thresh_raw: u8,
    /// DGNSS timeout (seconds).
    pub dgps_time_out: u8,
    /// Number of satellites required to have C/N0 above `cno_thresh` for a fix to be attempted.
    pub cno_thresh_num_svs: u8,
    /// C/N0 threshold for deciding whether to attempt a fix (dBHz).
    pub cno_thresh: u8,
    pub reserved1: [u8; 2],
    /// Static hold distance threshold (before quitting static hold).
    pub static_hold_max_dist: u16,
    /// UTC standard to be used.
    pub utc_standard: UtcStandardIdentifier,
    pub reserved2: [u8; 5],
}

impl CfgNav5Builder {
    /// The payload these fields make.
    pub open spec fn payload(&self) -> Seq<u8> {
        u16_le_bytes(self.mask)
            + seq![self.dyn_model.spec_into_raw()]
            + seq![self.fix_mode.spec_into_raw()]
            + u32_le_bytes(self.fixed_alt_raw as u32)
            + u32_le_bytes(self.fixed_alt_var_raw)
            + seq![self.min_elev_degrees as u8]
            + seq![self.dr_limit]
            + u16_le_bytes(self.pdop_raw)
            + u16_le_bytes(self.tdop_raw)
            + u16_le_bytes(self.pacc)
            + u16_le_bytes(self.tacc)
            + seq![self.static_hold_thresh_raw]
            + seq![self.dgps_time_out]
            + seq![self.cno_thresh_num_svs]
            + seq![self.cno_thresh]
            + self.reserved1@
            + u16_le_bytes(self.static_hold_max_dist)
            + seq![self.utc_standard.spec_into_raw()]
            + self.reserved2@
    }

    /// The whole packet frame.
    pub fn into_packet_bytes(self) -> (r: [u8; 44])
        ensures
            r@ == ubx_frame(CfgNav5::CLASS, CfgNav5::ID, self.payload()),
    {
        let mut payload: Vec<u8> = Vec::new();
        extend_vec(&mut payload, u16_to_le(self.mask).as_slice());
        payload.push(self.dyn_model.into_raw());
        payload.push(self.fix_mode.into_raw());
        extend_vec(&mut payload, u32_to_le(self.fixed_alt_raw as u32).as_slice());
        extend_vec(&mut payload, u32_to_le(self.fixed_alt_var_raw).as_slice());
        payload.push(self.min_elev_degrees as u8);
        payload.push(self.dr_limit);
        extend_vec(&mut payload, u16_to_le(self.pdop_raw).as_slice());
        extend_vec(&mut payload, u16_to_le(self.tdop_raw).as_slice());
        extend_vec(&mut payload, u16_to_le(self.pacc).as_slice());
        extend_vec(&mut payload, u16_to_le(self.tacc).as_slice());
        payload.push(self.static_hold_thresh_raw);
        payload.push(self.dgps_time_out);
        payload.push(self.cno_thresh_num_svs);
        payload.push(self.cno_thresh);
        extend_vec(&mut payload, self.reserved1.as_slice());
        extend_vec(&mut payload, u16_to_le(self.static_hold_max_dist).as_slice());
        payload.push(self.utc_standard.into_raw());
        extend_vec(&mut payload, self.reserved2.as_slice());
        proof {
            assert(payload@ =~= self.payload());
            lemma_ubx_frame_layout(CfgNav5::CLASS, CfgNav5::ID, payload@, Seq::<u8>::empty());
            assert(ubx_frame(CfgNav5::CLASS, CfgNav5::ID, payload@) + Seq::<u8>::empty() =~= ubx_frame(
                CfgNav5::CLASS,
                CfgNav5::ID,
                payload@,
            ));
        }
        let frame = build_frame(CfgNav5::CLASS, CfgNav5::ID, payload.as_slice());
        vec_into_array::<44>(&frame)
    }
}

impl UbxPacketCreator for CfgNav5Builder {
    open spec fn packet_bytes(&self) -> Seq<u8> {
        ubx_frame(CfgNav5::CLASS, CfgNav5::ID, self.payload())
    }

    fn create_packet<T: MemWriter>(self, out: &mut T) -> (r: Result<(), MemWriterError<T::Error>>) {
        let bytes = self.into_packet_bytes();
        out.reserve_allocate(44)?;
        out.write(bytes.as_slice())
    }
}

impl Default for CfgNav5Builder {
    fn default() -> (r: Self)
        ensures
            r.mask == 0,
            r.dyn_model == NavDynamicModel::AirborneWithLess4gAcceleration,
            r.fix_mode == NavFixMode::Auto2D3D,
            r.fixed_alt_raw == 0,
            r.fixed_alt_var_raw == 0,
            r.min_elev_degrees == 0,
            r.dr_limit == 0,
            r.pdop_raw == 0,
            r.tdop_raw == 0,
            r.pacc == 0,
            r.tacc == 0,
            r.static_hold_thresh_raw == 0,
            r.dgps_time_out == 0,
            r.cno_thresh_num_svs == 0,
            r.cno_thresh == 0,
            r.reserved1@ == Seq::<u8>::new(2, |i: int| 0u8),
            r.static_hold_max_dist == 0,
            r.utc_standard == UtcStandardIdentifier::Automatic,
            r.reserved2@ == Seq::<u8>::new(5, |i: int| 0u8),
    {
        let r = CfgNav5Builder { mask: 0, dyn_model: NavDynamicModel::AirborneWithLess4gAcceleration, fix_mode: NavFixMode::Auto2D3D, fixed_alt_raw: 0, fixed_alt_var_raw: 0, min_elev_degrees: 0, dr_limit: 0, pdop_raw: 0, tdop_raw: 0, pacc: 0, tacc: 0, static_hold_thresh_raw: 0, dgps_time_out: 0, cno_thresh_num_svs: 0, cno_thresh: 0, reserved1: [0u8; 2], static_hold_max_dist: 0, utc_standard: UtcStandardIdentifier::Automatic, reserved2: [0u8; 5] };
        proof {
            assert(r.reserved1@ =~= Seq::<u8>::new(2, |i: int| 0u8));
            assert(r.reserved2@ =~= Seq::<u8>::new(5, |i: int| 0u8));
        }
        r
    }
}

/// Reading back what a [CfgNav5Builder] writes: the payload validates, and
/// each getter of [CfgNav5Ref] gives the builder's field.
pub proof fn lemma_cfg_nav5_fields_roundtrip(b: CfgNav5Builder)
    ensures
        CfgNav5Ref::spec_validate(b.payload()) is Ok,
        le_u16(b.payload(), 0) == b.mask,
        NavDynamicModel::spec_from_raw(b.payload()[2]) == b.dyn_model,
        NavFixMode::spec_from_raw(b.payload()[3]) == b.fix_mode,
        le_u32(b.payload(), 4) as i32 == b.fixed_alt_raw,
        le_u32(b.payload(), 8) == b.fixed_alt_var_raw,
        b.payload()[12] as i8 == b.min_elev_degrees,
        b.payload()[13] == b.dr_limit,
        le_u16(b.payload(), 14) == b.pdop_raw,
        le_u16(b.payload(), 16) == b.tdop_raw,
        le_u16(b.payload(), 18) == b.pacc,
        le_u16(b.payload(), 20) == b.tacc,
        b.payload()[22] == b.static_hold_thresh_raw,
        b.payload()[23] == b.dgps_time_out,
        b.payload()[24] == b.cno_thresh_num_svs,
        b.payload()[25] == b.cno_thresh,
        b.payload().subrange(26, 28) == b.reserved1@,
        le_u16(b.payload(), 28) == b.static_hold_max_dist,
        UtcStandardIdentifier::spec_from_raw(b.payload()[30]) == b.utc_standard,
        b.payload().subrange(31, 36) == b.reserved2@,
{
    assert(b.payload().len() == 36);
    lemma_u16_le_roundtrip(b.mask);
    assert(b.payload().subrange(0, 2) =~= u16_le_bytes(b.mask));
    assert(le_u16(b.payload(), 0) == le_u16(u16_le_bytes(b.mask), 0));
    b.dyn_model.lemma_raw_roundtrip();
    assert(b.payload()[2] == b.dyn_model.spec_into_raw());
    b.fix_mode.lemma_raw_roundtrip();
    assert(b.payload()[3] == b.fix_mode.spec_into_raw());
    lemma_u32_le_roundtrip(b.fixed_alt_raw as u32);
    lemma_i32_u32_roundtrip(b.fixed_alt_raw);
    assert(b.payload().subrange(4, 8) =~= u32_le_bytes(b.fixed_alt_raw as u32));
    assert(le_u32(b.payload(), 4) == le_u32(u32_le_bytes(b.fixed_alt_raw as u32), 0));
    lemma_u32_le_roundtrip(b.fixed_alt_var_raw);
    assert(b.payload().subrange(8, 12) =~= u32_le_bytes(b.fixed_alt_var_raw));
    assert(le_u32(b.payload(), 8) == le_u32(u32_le_bytes(b.fixed_alt_var_raw), 0));
    lemma_i8_u8_roundtrip(b.min_elev_degrees);
    assert(b.payload()[12] == b.min_elev_degrees as u8);
    assert(b.payload()[13] == b.dr_limit);
    lemma_u16_le_roundtrip(b.pdop_raw);
    assert(b.payload().subrange(14, 16) =~= u16_le_bytes(b.pdop_raw));
    assert(le_u16(b.payload(), 14) == le_u16(u16_le_bytes(b.pdop_raw), 0));
    lemma_u16_le_roundtrip(b.tdop_raw);
    assert(b.payload().subrange(16, 18) =~= u16_le_bytes(b.tdop_raw));
    assert(le_u16(b.payload(), 16) == le_u16(u16_le_bytes(b.tdop_raw), 0));
    lemma_u16_le_roundtrip(b.pacc);
    assert(b.payload().subrange(18, 20) =~= u16_le_bytes(b.pacc));
    assert(le_u16(b.payload(), 18) == le_u16(u16_le_bytes(b.pacc), 0));
    lemma_u16_le_roundtrip(b.tacc);
    assert(b.payload().subrange(20, 22) =~= u16_le_bytes(b.tacc));
    assert(le_u16(b.payload(), 20) == le_u16(u16_le_bytes(b.tacc), 0));
    assert(b.payload()[22] == b.static_hold_thresh_raw);
    assert(b.payload()[23] == b.dgps_time_out);
    assert(b.payload()[24] == b.cno_thresh_num_svs);
    assert(b.payload()[25] == b.cno_thresh);
    assert(b.payload().subrange(26, 28) =~= b.reserved1@);
    lemma_u16_le_roundtrip(b.static_hold_max_dist);
    assert(b.payload().subrange(28, 30) =~= u16_le_bytes(b.static_hold_max_dist));
    assert(le_u16(b.payload(), 28) == le_u16(u16_le_bytes(b.static_hold_max_dist), 0));
    b.utc_standard.lemma_raw_roundtrip();
    assert(b.payload()[30] == b.utc_standard.spec_into_raw());
    assert(b.payload().subrange(31, 36) =~= b.reserved2@);
}

/// Navigation Engine Expert Settings.
pub struct CfgNavX5;

impl UbxPacketMeta for CfgNavX5 {
    const CLASS: u8 = 0x06;
    const ID: u8 = 0x23;
    const MAX_PAYLOAD_LEN: u16 = 40;

    fn fixed_payload_len() -> (r: Option<u16>)
        ensures
            r == Some(40u16),
    {
        Some(40)
    }
}

/// Payload of a [CfgNavX5] packet.
pub struct CfgNavX5Ref<'a>(pub &'a [u8]);

impl<'a> CfgNavX5Ref<'a> {
    /// The outcome of validating a payload: its length, then each field
    /// that only allows some values.
    pub open spec fn spec_validate(payload: Seq<u8>) -> Result<(), ParserError> {
        if payload.len() != 40 {
            Err(ParserError::InvalidPacketLen { packet: "CfgNavX5", expect: 40, got: payload.len() as usize })
        }
        else {
            Ok(())
        }
    }

    /// Checks that `payload` is a valid [CfgNavX5] payload.
    pub fn validate(payload: &[u8]) -> (r: Result<(), ParserError>)
        ensures
            r == Self::spec_validate(payload@),
    {
        if payload.len() != 40 {
            return Err(ParserError::InvalidPacketLen { packet: "CfgNavX5", expect: 40, got: payload.len() });
        }
        Ok(())
    }

    /// Length of the payload.
    pub fn payload_len(&self) -> (r: usize)
        ensures
            r == self.0@.len(),
    {
        self.0.len()
    }

    /// Only version 2 supported.
    pub fn version(&self) -> (r: u16)
        requires
            Self::spec_validate(self.0@) is Ok,
        ensures
            r == le_u16(self.0@, 0),
    {
        read_u16_le(self.0, 0)
    }

    /// Only the masked parameters will be applied (raw bits).
    pub fn mask1(&self) -> (r: u16)
        requires
            Self::spec_validate(self.0@) is Ok,
        ensures
            r == le_u16(self.0@, 2),
    {
        read_u16_le(self.0, 2)
    }

    /// Raw bits.
    pub fn mask2(&self) -> (r: u32)
        requires
            Self::spec_validate(self.0@) is Ok,
        ensures
            r == le_u32(self.0@, 4),
    {
        read_u32_le(self.0, 4)
    }

    pub fn reserved1(&self) -> (r: &[u8])
        requires
            Self::spec_validate(self.0@) is Ok,
        ensures
            r@ == self.0@.subrange(8, 10),
    {
        slice_subrange(self.0, 8, 10)
    }

    /// Minimum number of satellites for navigation.
    pub fn min_svs(&self) -> (r: u8)
        requires
            Self::spec_validate(self.0@) is Ok,
        ensures
            r == self.0@[10],
    {
        self.0[10]
    }

    /// Maximum number of satellites for navigation.
    pub fn max_svs(&self) -> (r: u8)
        requires
            Self::spec_validate(self.0@) is Ok,
        ensures
            r == self.0@[11],
    {
        self.0[11]
    }

    /// Minimum satellite signal level for navigation.
    pub fn min_cno_dbhz(&self) -> (r: u8)
        requires
            Self::spec_validate(self.0@) is Ok,
        ensures
            r == self.0@[12],
    {
        self.0[12]
    }

    pub fn reserved2(&self) -> (r: u8)
        requires
            Self::spec_validate(self.0@) is Ok,
        ensures
            r == self.0@[13],
    {
        self.0[13]
    }

    /// Initial fix must be 3D.
    pub fn ini_fix_3d(&self) -> (r: u8)
        requires
            Self::spec_validate(self.0@) is Ok,
        ensures
            r == self.0@[14],
    {
        self.0[14]
    }

    pub fn reserved3(&self) -> (r: &[u8])
        requires
            Self::spec_validate(self.0@) is Ok,
        ensures
            r@ == self.0@.subrange(15, 17),
    {
        slice_subrange(self.0, 15, 17)
    }

    /// Issue acknowledgements for assistance message input.
    pub fn ack_aiding(&self) -> (r: u8)
        requires
            Self::spec_validate(self.0@) is Ok,
        ensures
            r == self.0@[17],
    {
        self.0[17]
    }

    /// GPS week rollover number.
    pub fn wkn_rollover(&self) -> (r: u16)
        requires
            Self::spec_validate(self.0@) is Ok,
        ensures
            r == le_u16(self.0@, 18),
    {
        read_u16_le(self.0, 18)
    }

    /// Permanently attenuated signal compensation.
    pub fn sig_atten_comp_mode(&self) -> (r: u8)
        requires
            Self::spec_validate(self.0@) is Ok,
        ensures
            r == self.0@[20],
    {
        self.0[20]
    }

    pub fn reserved4(&self) -> (r: u8)
        requires
            Self::spec_validate(self.0@) is Ok,
        ensures
            r == self.0@[21],
    {
        self.0[21]
    }

    pub fn reserved5(&self) -> (r: &[u8])
        requires
            Self::spec_validate(self.0@) is Ok,
        ensures
            r@ == self.0@.subrange(22, 24),
    {
        slice_subrange(self.0, 22, 24)
    }

    pub fn reserved6(&self) -> (r: &[u8])
        requires
            Self::spec_validate(self.0@) is Ok,
        ensures
            r@ == self.0@.subrange(24, 26),
    {
        slice_subrange(self.0, 24, 26)
    }

    /// Use Precise Point Positioning.
    pub fn use_ppp(&self) -> (r: u8)
        requires
            Self::spec_validate(self.0@) is Ok,
        ensures
            r == self.0@[26],
    {
        self.0[26]
    }

    /// AssistNow Autonomous configuration.
    pub fn aop_cfg(&self) -> (r: u8)
        requires
            Self::spec_validate(self.0@) is Ok,
        ensures
            r == self.0@[27],
    {
        self.0[27]
    }

    pub fn reserved7(&self) -> (r: &[u8])
        requires
            Self::spec_validate(self.0@) is Ok,
        ensures
            r@ == self.0@.subrange(28, 30),
    {
        slice_subrange(self.0, 28, 30)
    }

    /// Maximum acceptable (modeled) AssistNow Autonomous orbit error.
    pub fn aop_orb_max_err(&self) -> (r: u16)
        requires
            Self::spec_validate(self.0@) is Ok,
        ensures
            r == le_u16(self.0@, 30),
    {
        read_u16_le(self.0, 30)
    }

    pub fn reserved8(&self) -> (r: &[u8])
        requires
            Self::spec_validate(self.0@) is Ok,
        ensures
            r@ == self.0@.subrange(32, 36),
    {
        slice_subrange(self.0, 32, 36)
    }

    pub fn reserved9(&self) -> (r: &[u8])
        requires
            Self::spec_validate(self.0@) is Ok,
        ensures
            r@ == self.0@.subrange(36, 39),
    {
        slice_subrange(self.0, 36, 39)
    }

    /// Enable/disable ADR/UDR sensor fusion.
    pub fn use_adr(&self) -> (r: u8)
        requires
            Self::spec_validate(self.0@) is Ok,
        ensures
            r == self.0@[39],
    {
        self.0[39]
    }

}

/// Builder of [CfgNavX5] packets: the raw values of the fields.
pub struct CfgNavX5Builder {
    /// Only version 2 supported.
    pub version: u16,
    /// Only the masked parameters will be applied (raw bits).
    pub mask1: u16,
    /// Raw bits.
    pub mask2: u32,
    pub reserved1: [u8; 2],
    /// Minimum number of satellites for navigation.
    pub min_svs: u8,
    /// Maximum number of satellites for navigation.
    pub max_svs: u8,
    /// Minimum satellite signal level for navigation.
    pub min_cno_dbhz: u8,
    pub reserved2: u8,
    /// Initial fix must be 3D.
    pub ini_fix_3d: u8,
    pub reserved3: [u8; 2],
    /// Issue acknowledgements for assistance message input.
    pub ack_aiding: u8,
    /// GPS week rollover number.
    pub wkn_rollover: u16,
    /// Permanently attenuated signal compensation.
    pub sig_atten_comp_mode: u8,
    pub reserved4: u8,
    pub reserved5: [u8; 2],
    pub reserved6: [u8; 2],
    /// Use Precise Point Positioning.
    pub use_ppp: u8,
    /// AssistNow Autonomous configuration.
    pub aop_cfg: u8,
    pub reserved7: [u8; 2],
    /// Maximum acceptable (modeled) AssistNow Autonomous orbit error.
    pub aop_orb_max_err: u16,
    pub reserved8: [u8; 4],
    pub reserved9: [u8; 3],
    /// Enable/disable ADR/UDR sensor fusion.
    pub use_adr: u8,
}

impl CfgNavX5Builder {
    /// The payload these fields make.
    pub open spec fn payload(&self) -> Seq<u8> {
        u16_le_bytes(self.version)
            + u16_le_bytes(self.mask1)
            + u32_le_bytes(self.mask2)
            + self.reserved1@
            + seq![self.min_svs]
            + seq![self.max_svs]
            + seq![self.min_cno_dbhz]
            + seq![self.reserved2]
            + seq![self.ini_fix_3d]
            + self.reserved3@
            + seq![self.ack_aiding]
            + u16_le_bytes(self.wkn_rollover)
            + seq![self.sig_atten_comp_mode]
            + seq![self.reserved4]
            + self.reserved5@
            + self.reserved6@
            + seq![self.use_ppp]
            + seq![self.aop_cfg]
            + self.reserved7@
            + u16_le_bytes(self.aop_orb_max_err)
            + self.reserved8@
            + self.reserved9@
            + seq![self.use_adr]
    }

    /// The whole packet frame.
    pub fn into_packet_bytes(self) -> (r: [u8; 48])
        ensures
            r@ == ubx_frame(CfgNavX5::CLASS, CfgNavX5::ID, self.payload()),
    {
        let mut payload: Vec<u8> = Vec::new();
        extend_vec(&mut payload, u16_to_le(self.version).as_slice());
        extend_vec(&mut payload, u16_to_le(self.mask1).as_slice());
        extend_vec(&mut payload, u32_to_le(self.mask2).as_slice());
        extend_vec(&mut payload, self.reserved1.as_slice());
        payload.push(self.min_svs);
        payload.push(self.max_svs);
        payload.push(self.min_cno_dbhz);
        payload.push(self.reserved2);
        payload.push(self.ini_fix_3d);
        extend_vec(&mut payload, self.reserved3.as_slice());
        payload.push(self.ack_aiding);
        extend_vec(&mut payload, u16_to_le(self.wkn_rollover).as_slice());
        payload.push(self.sig_atten_comp_mode);
        payload.push(self.reserved4);
        extend_vec(&mut payload, self.reserved5.as_slice());
        extend_vec(&mut payload, self.reserved6.as_slice());
        payload.push(self.use_ppp);
        payload.push(self.aop_cfg);
        extend_vec(&mut payload, self.reserved7.as_slice());
        extend_vec(&mut payload, u16_to_le(self.aop_orb_max_err).as_slice());
        extend_vec(&mut payload, self.reserved8.as_slice());
        extend_vec(&mut payload, self.reserved9.as_slice());
        payload.push(self.use_adr);
        proof {
            assert(payload@ =~= self.payload());
            lemma_ubx_frame_layout(CfgNavX5::CLASS, CfgNavX5::ID, payload@, Seq::<u8>::empty());
            assert(ubx_frame(CfgNavX5::CLASS, CfgNavX5::ID, payload@) + Seq::<u8>::empty() =~= ubx_frame(
                CfgNavX5::CLASS,
                CfgNavX5::ID,
                payload@,
            ));
        }
        let frame = build_frame(CfgNavX5::CLASS, CfgNavX5::ID, payload.as_slice());
        vec_into_array::<48>(&frame)
    }
}

impl UbxPacketCreator for CfgNavX5Builder {
    open spec fn packet_bytes(&self) -> Seq<u8> {
        ubx_frame(CfgNavX5::CLASS, CfgNavX5::ID, self.payload())
    }

    fn create_packet<T: MemWriter>(self, out: &mut T) -> (r: Result<(), MemWriterError<T::Error>>) {
        let bytes = self.into_packet_bytes();
        out.reserve_allocate(48)?;
        out.write(bytes.as_slice())
    }
}

impl Default for CfgNavX5Builder {
    fn default() -> (r: Self)
        ensures
            r.version == 0,
            r.mask1 == 0,
            r.mask2 == 0,
            r.reserved1@ == Seq::<u8>::new(2, |i: int| 0u8),
            r.min_svs == 0,
            r.max_svs == 0,
            r.min_cno_dbhz == 0,
            r.reserved2 == 0,
            r.ini_fix_3d == 0,
            r.reserved3@ == Seq::<u8>::new(2, |i: int| 0u8),
            r.ack_aiding == 0,
            r.wkn_rollover == 0,
            r.sig_atten_comp_mode == 0,
            r.reserved4 == 0,
            r.reserved5@ == Seq::<u8>::new(2, |i: int| 0u8),
            r.reserved6@ == Seq::<u8>::new(2, |i: int| 0u8),
            r.use_ppp == 0,
            r.aop_cfg == 0,
            r.reserved7@ == Seq::<u8>::new(2, |i: int| 0u8),
            r.aop_orb_max_err == 0,
            r.reserved8@ == Seq::<u8>::new(4, |i: int| 0u8),
            r.reserved9@ == Seq::<u8>::new(3, |i: int| 0u8),
            r.use_adr == 0,
    {
        let r = CfgNavX5Builder { version: 0, mask1: 0, mask2: 0, reserved1: [0u8; 2], min_svs: 0, max_svs: 0, min_cno_dbhz: 0, reserved2: 0, ini_fix_3d: 0, reserved3: [0u8; 2], ack_aiding: 0, wkn_rollover: 0, sig_atten_comp_mode: 0, reserved4: 0, reserved5: [0u8; 2], reserved6: [0u8; 2], use_ppp: 0, aop_cfg: 0, reserved7: [0u8; 2], aop_orb_max_err: 0, reserved8: [0u8; 4], reserved9: [0u8; 3], use_adr: 0 };
        proof {
            assert(r.reserved1@ =~= Seq::<u8>::new(2, |i: int| 0u8));
            assert(r.reserved3@ =~= Seq::<u8>::new(2, |i: int| 0u8));
            assert(r.reserved5@ =~= Seq::<u8>::new(2, |i: int| 0u8));
            assert(r.reserved6@ =~= Seq::<u8>::new(2, |i: int| 0u8));
            assert(r.reserved7@ =~= Seq::<u8>::new(2, |i: int| 0u8));
            assert(r.reserved8@ =~= Seq::<u8>::new(4, |i: int| 0u8));
            assert(r.reserved9@ =~= Seq::<u8>::new(3, |i: int| 0u8));
        }
        r
    }
}

/// Reading back what a [CfgNavX5Builder] writes: the payload validates, and
/// each getter of [CfgNavX5Ref] gives the builder's field.
pub proof fn lemma_cfg_nav_x5_fields_roundtrip(b: CfgNavX5Builder)
    ensures
        CfgNavX5Ref::spec_validate(b.payload()) is Ok,
        le_u16(b.payload(), 0) == b.version,
        le_u16(b.payload(), 2) == b.mask1,
        le_u32(b.payload(), 4) == b.mask2,
        b.payload().subrange(8, 10) == b.reserved1@,
        b.payload()[10] == b.min_svs,
        b.payload()[11] == b.max_svs,
        b.payload()[12] == b.min_cno_dbhz,
        b.payload()[13] == b.reserved2,
        b.payload()[14] == b.ini_fix_3d,
        b.payload().subrange(15, 17) == b.reserved3@,
        b.payload()[17] == b.ack_aiding,
        le_u16(b.payload(), 18) == b.wkn_rollover,
        b.payload()[20] == b.sig_atten_comp_mode,
        b.payload()[21] == b.reserved4,
        b.payload().subrange(22, 24) == b.reserved5@,
        b.payload().subrange(24, 26) == b.reserved6@,
        b.payload()[26] == b.use_ppp,
        b.payload()[27] == b.aop_cfg,
        b.payload().subrange(28, 30) == b.reserved7@,
        le_u16(b.payload(), 30) == b.aop_orb_max_err,
        b.payload().subrange(32, 36) == b.reserved8@,
        b.payload().subrange(36, 39) == b.reserved9@,
        b.payload()[39] == b.use_adr,
{
    assert(b.payload().len() == 40);
    lemma_u16_le_roundtrip(b.version);
    assert(b.payload().subrange(0, 2) =~= u16_le_bytes(b.version));
    assert(le_u16(b.payload(), 0) == le_u16(u16_le_bytes(b.version), 0));
    lemma_u16_le_roundtrip(b.mask1);
    assert(b.payload().subrange(2, 4) =~= u16_le_bytes(b.mask1));
    assert(le_u16(b.payload(), 2) == le_u16(u16_le_bytes(b.mask1), 0));
    lemma_u32_le_roundtrip(b.mask2);
    assert(b.payload().subrange(4, 8) =~= u32_le_bytes(b.mask2));
    assert(le_u32(b.payload(), 4) == le_u32(u32_le_bytes(b.mask2), 0));
    assert(b.payload().subrange(8, 10) =~= b.reserved1@);
    assert(b.payload()[10] == b.min_svs);
    assert(b.payload()[11] == b.max_svs);
    assert(b.payload()[12] == b.min_cno_dbhz);
    assert(b.payload()[13] == b.reserved2);
    assert(b.payload()[14] == b.ini_fix_3d);
    assert(b.payload().subrange(15, 17) =~= b.reserved3@);
    assert(b.payload()[17] == b.ack_aiding);
    lemma_u16_le_roundtrip(b.wkn_rollover);
    assert(b.payload().subrange(18, 20) =~= u16_le_bytes(b.wkn_rollover));
    assert(le_u16(b.payload(), 18) == le_u16(u16_le_bytes(b.wkn_rollover), 0));
    assert(b.payload()[20] == b.sig_atten_comp_mode);
    assert(b.payload()[21] == b.reserved4);
    assert(b.payload().subrange(22, 24) =~= b.reserved5@);
    assert(b.payload().subrange(24, 26) =~= b.reserved6@);
    assert(b.payload()[26] == b.use_ppp);
    assert(b.payload()[27] == b.aop_cfg);
    assert(b.payload().subrange(28, 30) =~= b.reserved7@);
    lemma_u16_le_roundtrip(b.aop_orb_max_err);
    assert(b.payload().subrange(30, 32) =~= u16_le_bytes(b.aop_orb_max_err));
    assert(le_u16(b.payload(), 30) == le_u16(u16_le_bytes(b.aop_orb_max_err), 0));
    assert(b.payload().subrange(32, 36) =~= b.reserved8@);
    assert(b.payload().subrange(36, 39) =~= b.reserved9@);
    assert(b.payload()[39] == b.use_adr);
}

/// Configure odometer.
pub struct CfgOdo;

impl UbxPacketMeta for CfgOdo {
    const CLASS: u8 = 0x06;
    const ID: u8 = 0x1E;
    const MAX_PAYLOAD_LEN: u16 = 20;

    fn fixed_payload_len() -> (r: Option<u16>)
        ensures
            r == Some(20u16),
    {
        Some(20)
    }
}

/// Payload of a [CfgOdo] packet.
pub struct CfgOdoRef<'a>(pub &'a [u8]);

impl<'a> CfgOdoRef<'a> {
    /// The outcome of validating a payload: its length, then each field
    /// that only allows some values.
    pub open spec fn spec_validate(payload: Seq<u8>) -> Result<(), ParserError> {
        if payload.len() != 20 {
            Err(ParserError::InvalidPacketLen { packet: "CfgOdo", expect: 20, got: payload.len() as usize })
        }
        else if !OdoProfile::spec_is_valid(payload[5]) {
            Err(ParserError::InvalidField { packet: "CfgOdo", field: "odo_cfg" })
        }
        else {
            Ok(())
        }
    }

    /// Checks that `payload` is a valid [CfgOdo] payload.
    pub fn validate(payload: &[u8]) -> (r: Result<(), ParserError>)
        ensures
            r == Self::spec_validate(payload@),
    {
        if payload.len() != 20 {
            return Err(ParserError::InvalidPacketLen { packet: "CfgOdo", expect: 20, got: payload.len() });
        }
        if !OdoProfile::is_valid(payload[5]) {
            return Err(ParserError::InvalidField { packet: "CfgOdo", field: "odo_cfg" });
        }
        Ok(())
    }

    /// Length of the payload.
    pub fn payload_len(&self) -> (r: usize)
        ensures
            r == self.0@.len(),
    {
        self.0.len()
    }

    pub fn version(&self) -> (r: u8)
        requires
            Self::spec_validate(self.0@) is Ok,
        ensures
            r == self.0@[0],
    {
        self.0[0]
    }

    pub fn reserved(&self) -> (r: &[u8])
        requires
            Self::spec_validate(self.0@) is Ok,
        ensures
            r@ == self.0@.subrange(1, 4),
    {
        slice_subrange(self.0, 1, 4)
    }

    /// Odometer COG filter flags.
    pub fn flags(&self) -> (r: u8)
        requires
            Self::spec_validate(self.0@) is Ok,
        ensures
            r == self.0@[4],
    {
        self.0[4]
    }

    /// Odometer profile.
    pub fn odo_cfg_raw(&self) -> (r: u8)
        requires
            Self::spec_validate(self.0@) is Ok,
        ensures
            r == self.0@[5],
    {
        self.0[5]
    }

    /// Odometer profile.
    pub fn odo_cfg(&self) -> (r: OdoProfile)
        requires
            Self::spec_validate(self.0@) is Ok,
        ensures
            r == OdoProfile::spec_from_raw(self.0@[5]),
    {
        OdoProfile::from_unchecked(self.0[5])
    }

    pub fn reserved2(&self) -> (r: &[u8])
        requires
            Self::spec_validate(self.0@) is Ok,
        ensures
            r@ == self.0@.subrange(6, 12),
    {
        slice_subrange(self.0, 6, 12)
    }

    pub fn cog_max_speed(&self) -> (r: u8)
        requires
            Self::spec_validate(self.0@) is Ok,
        ensures
            r == self.0@[12],
    {
        self.0[12]
    }

    pub fn cog_max_pos_acc(&self) -> (r: u8)
        requires
            Self::spec_validate(self.0@) is Ok,
        ensures
            r == self.0@[13],
    {
        self.0[13]
    }

    pub fn reserved3(&self) -> (r: &[u8])
        requires
            Self::spec_validate(self.0@) is Ok,
        ensures
            r@ == self.0@.subrange(14, 16),
    {
        slice_subrange(self.0, 14, 16)
    }

    pub fn vel_lp_gain(&self) -> (r: u8)
        requires
            Self::spec_validate(self.0@) is Ok,
        ensures
            r == self.0@[16],
    {
        self.0[16]
    }

    pub fn cog_lp_gain(&self) -> (r: u8)
        requires
            Self::spec_validate(self.0@) is Ok,
        ensures
            r == self.0@[17],
    {
        self.0[17]
    }

    pub fn reserved4(&self) -> (r: &[u8])
        requires
            Self::spec_validate(self.0@) is Ok,
        ensures
            r@ == self.0@.subrange(18, 20),
    {
        slice_subrange(self.0, 18, 20)
    }

}

/// Builder of [CfgOdo] packets: the raw values of the fields.
pub struct CfgOdoBuilder {
    pub version: u8,
    pub reserved: [u8; 3],
    /// Odometer COG filter flags.
    pub flags: u8,
    /// Odometer profile.
    pub odo_cfg: OdoProfile,
    pub reserved2: [u8; 6],
    pub cog_max_speed: u8,
    pub cog_max_pos_acc: u8,
    pub reserved3: [u8; 2],
    pub vel_lp_gain: u8,
    pub cog_lp_gain: u8,
    pub reserved4: [u8; 2],
}

impl CfgOdoBuilder {
    /// The payload these fields make.
    pub open spec fn payload(&self) -> Seq<u8> {
        seq![self.version]
            + self.reserved@
            + seq![self.flags]
            + seq![self.odo_cfg.spec_into_raw()]
            + self.reserved2@
            + seq![self.cog_max_speed]
            + seq![self.cog_max_pos_acc]
            + self.reserved3@
            + seq![self.vel_lp_gain]
            + seq![self.cog_lp_gain]
            + self.reserved4@
    }

    /// The whole packet frame.
    pub fn into_packet_bytes(self) -> (r: [u8; 28])
        ensures
            r@ == ubx_frame(CfgOdo::CLASS, CfgOdo::ID, self.payload()),
    {
        let mut payload: Vec<u8> = Vec::new();
        payload.push(self.version);
        extend_vec(&mut payload, self.reserved.as_slice());
        payload.push(self.flags);
        payload.push(self.odo_cfg.into_raw());
        extend_vec(&mut payload, self.reserved2.as_slice());
        payload.push(self.cog_max_speed);
        payload.push(self.cog_max_pos_acc);
        extend_vec(&mut payload, self.reserved3.as_slice());
        payload.push(self.vel_lp_gain);
        payload.push(self.cog_lp_gain);
        extend_vec(&mut payload, self.reserved4.as_slice());
        proof {
            assert(payload@ =~= self.payload());
            lemma_ubx_frame_layout(CfgOdo::CLASS, CfgOdo::ID, payload@, Seq::<u8>::empty());
            assert(ubx_frame(CfgOdo::CLASS, CfgOdo::ID, payload@) + Seq::<u8>::empty() =~= ubx_frame(
                CfgOdo::CLASS,
                CfgOdo::ID,
                payload@,
            ));
        }
        let frame = build_frame(CfgOdo::CLASS, CfgOdo::ID, payload.as_slice());
        vec_into_array::<28>(&frame)
    }
}

impl UbxPacketCreator for CfgOdoBuilder {
    open spec fn packet_bytes(&self) -> Seq<u8> {
        ubx_frame(CfgOdo::CLASS, CfgOdo::ID, self.payload())
    }

    fn create_packet<T: MemWriter>(self, out: &mut T) -> (r: Result<(), MemWriterError<T::Error>>) {
        let bytes = self.into_packet_bytes();
        out.reserve_allocate(28)?;
        out.write(bytes.as_slice())
    }
}

impl Default for CfgOdoBuilder {
    fn default() -> (r: Self)
        ensures
            r.version == 0,
            r.reserved@ == Seq::<u8>::new(3, |i: int| 0u8),
            r.flags == 0,
            r.odo_cfg == OdoProfile::Running,
            r.reserved2@ == Seq::<u8>::new(6, |i: int| 0u8),
            r.cog_max_speed == 0,
            r.cog_max_pos_acc == 0,
            r.reserved3@ == Seq::<u8>::new(2, |i: int| 0u8),
            r.vel_lp_gain == 0,
            r.cog_lp_gain == 0,
            r.reserved4@ == Seq::<u8>::new(2, |i: int| 0u8),
    {
        let r = CfgOdoBuilder { version: 0, reserved: [0u8; 3], flags: 0, odo_cfg: OdoProfile::Running, reserved2: [0u8; 6], cog_max_speed: 0, cog_max_pos_acc: 0, reserved3: [0u8; 2], vel_lp_gain: 0, cog_lp_gain: 0, reserved4: [0u8; 2] };
        proof {
            assert(r.reserved@ =~= Seq::<u8>::new(3, |i: int| 0u8));
            assert(r.reserved2@ =~= Seq::<u8>::new(6, |i: int| 0u8));
            assert(r.reserved3@ =~= Seq::<u8>::new(2, |i: int| 0u8));
            assert(r.reserved4@ =~= Seq::<u8>::new(2, |i: int| 0u8));
        }
        r
    }
}

/// Reading back what a [CfgOdoBuilder] writes: the payload validates, and
/// each getter of [CfgOdoRef] gives the builder's field.
pub proof fn lemma_cfg_odo_fields_roundtrip(b: CfgOdoBuilder)
    ensures
        CfgOdoRef::spec_validate(b.payload()) is Ok,
        b.payload()[0] == b.version,
        b.payload().subrange(1, 4) == b.reserved@,
        b.payload()[4] == b.flags,
        OdoProfile::spec_from_raw(b.payload()[5]) == b.odo_cfg,
        b.payload().subrange(6, 12) == b.reserved2@,
        b.payload()[12] == b.cog_max_speed,
        b.payload()[13] == b.cog_max_pos_acc,
        b.payload().subrange(14, 16) == b.reserved3@,
        b.payload()[16] == b.vel_lp_gain,
        b.payload()[17] == b.cog_lp_gain,
        b.payload().subrange(18, 20) == b.reserved4@,
{
    assert(b.payload().len() == 20);
    assert(b.payload()[0] == b.version);
    assert(b.payload().subrange(1, 4) =~= b.reserved@);
    assert(b.payload()[4] == b.flags);
    b.odo_cfg.lemma_raw_roundtrip();
    assert(b.payload()[5] == b.odo_cfg.spec_into_raw());
    assert(b.payload().subrange(6, 12) =~= b.reserved2@);
    assert(b.payload()[12] == b.cog_max_speed);
    assert(b.payload()[13] == b.cog_max_pos_acc);
    assert(b.payload().subrange(14, 16) =~= b.reserved3@);
    assert(b.payload()[16] == b.vel_lp_gain);
    assert(b.payload()[17] == b.cog_lp_gain);
    assert(b.payload().subrange(18, 20) =~= b.reserved4@);
}

/// Configure jamming interference monitoring.
pub struct CfgItfm;

impl UbxPacketMeta for CfgItfm {
    const CLASS: u8 = 0x06;
    const ID: u8 = 0x39;
    const MAX_PAYLOAD_LEN: u16 = 8;

    fn fixed_payload_len() -> (r: Option<u16>)
        ensures
            r == Some(8u16),
    {
        Some(8)
    }
}

/// Payload of a [CfgItfm] packet.
pub struct CfgItfmRef<'a>(pub &'a [u8]);

impl<'a> CfgItfmRef<'a> {
    /// The outcome of validating a payload: its length, then each field
    /// that only allows some values.
    pub open spec fn spec_validate(payload: Seq<u8>) -> Result<(), ParserError> {
        if payload.len() != 8 {
            Err(ParserError::InvalidPacketLen { packet: "CfgItfm", expect: 8, got: payload.len() as usize })
        }
        else {
            Ok(())
        }
    }

    /// Checks that `payload` is a valid [CfgItfm] payload.
    pub fn validate(payload: &[u8]) -> (r: Result<(), ParserError>)
        ensures
            r == Self::spec_validate(payload@),
    {
        if payload.len() != 8 {
            return Err(ParserError::InvalidPacketLen { packet: "CfgItfm", expect: 8, got: payload.len() });
        }
        Ok(())
    }

    /// Length of the payload.
    pub fn payload_len(&self) -> (r: usize)
        ensures
            r == self.0@.len(),
    {
        self.0.len()
    }

    /// Interference config word.
    pub fn config_raw(&self) -> (r: u32)
        requires
            Self::spec_validate(self.0@) is Ok,
        ensures
            r == le_u32(self.0@, 0),
    {
        read_u32_le(self.0, 0)
    }

    /// Extra settings.
    pub fn config2_raw(&self) -> (r: u32)
        requires
            Self::spec_validate(self.0@) is Ok,
        ensures
            r == le_u32(self.0@, 4),
    {
        read_u32_le(self.0, 4)
    }

}

/// Builder of [CfgItfm] packets: the raw values of the fields.
pub struct CfgItfmBuilder {
    /// Interference config word.
    pub config_raw: u32,
    /// Extra settings.
    pub config2_raw: u32,
}

impl CfgItfmBuilder {
    /// The payload these fields make.
    pub open spec fn payload(&self) -> Seq<u8> {
        u32_le_bytes(self.config_raw)
            + u32_le_bytes(self.config2_raw)
    }

    /// The whole packet frame.
    pub fn into_packet_bytes(self) -> (r: [u8; 16])
        ensures
            r@ == ubx_frame(CfgItfm::CLASS, CfgItfm::ID, self.payload()),
    {
        let mut payload: Vec<u8> = Vec::new();
        extend_vec(&mut payload, u32_to_le(self.config_raw).as_slice());
        extend_vec(&mut payload, u32_to_le(self.config2_raw).as_slice());
        proof {
            assert(payload@ =~= self.payload());
            lemma_ubx_frame_layout(CfgItfm::CLASS, CfgItfm::ID, payload@, Seq::<u8>::empty());
            assert(ubx_frame(CfgItfm::CLASS, CfgItfm::ID, payload@) + Seq::<u8>::empty() =~= ubx_frame(
                CfgItfm::CLASS,
                CfgItfm::ID,
                payload@,
            ));
        }
        let frame = build_frame(CfgItfm::CLASS, CfgItfm::ID, payload.as_slice());
        vec_into_array::<16>(&frame)
    }
}

impl UbxPacketCreator for CfgItfmBuilder {
    open spec fn packet_bytes(&self) -> Seq<u8> {
        ubx_frame(CfgItfm::CLASS, CfgItfm::ID, self.payload())
    }

    fn create_packet<T: MemWriter>(self, out: &mut T) -> (r: Result<(), MemWriterError<T::Error>>) {
        let bytes = self.into_packet_bytes();
        out.reserve_allocate(16)?;
        out.write(bytes.as_slice())
    }
}

/// Reading back what a [CfgItfmBuilder] writes: the payload validates, and
/// each getter of [CfgItfmRef] gives the builder's field.
pub proof fn lemma_cfg_itfm_fields_roundtrip(b: CfgItfmBuilder)
    ensures
        CfgItfmRef::spec_validate(b.payload()) is Ok,
        le_u32(b.payload(), 0) == b.config_raw,
        le_u32(b.payload(), 4) == b.config2_raw,
{
    assert(b.payload().len() == 8);
    lemma_u32_le_roundtrip(b.config_raw);
    assert(b.payload().subrange(0, 4) =~= u32_le_bytes(b.config_raw));
    assert(le_u32(b.payload(), 0) == le_u32(u32_le_bytes(b.config_raw), 0));
    lemma_u32_le_roundtrip(b.config2_raw);
    assert(b.payload().subrange(4, 8) =~= u32_le_bytes(b.config2_raw));
    assert(le_u32(b.payload(), 4) == le_u32(u32_le_bytes(b.config2_raw), 0));
}

/// Port configuration for UART.
pub struct CfgPrtUart;

impl UbxPacketMeta for CfgPrtUart {
    const CLASS: u8 = 0x06;
    const ID: u8 = 0x00;
    const MAX_PAYLOAD_LEN: u16 = 20;

    fn fixed_payload_len() -> (r: Option<u16>)
        ensures
            r == Some(20u16),
    {
        Some(20)
    }
}

/// Payload of a [CfgPrtUart] packet.
pub struct CfgPrtUartRef<'a>(pub &'a [u8]);

impl<'a> CfgPrtUartRef<'a> {
    /// The outcome of validating a payload: its length, then each field
    /// that only allows some values.
    pub open spec fn spec_validate(payload: Seq<u8>) -> Result<(), ParserError> {
        if payload.len() != 20 {
            Err(ParserError::InvalidPacketLen { packet: "CfgPrtUart", expect: 20, got: payload.len() as usize })
        }
        else if !UartPortId::spec_is_valid(payload[0]) {
            Err(ParserError::InvalidField { packet: "CfgPrtUart", field: "portid" })
        }
        else {
            Ok(())
        }
    }

    /// Checks that `payload` is a valid [CfgPrtUart] payload.
    pub fn validate(payload: &[u8]) -> (r: Result<(), ParserError>)
        ensures
            r == Self::spec_validate(payload@),
    {
        if payload.len() != 20 {
            return Err(ParserError::InvalidPacketLen { packet: "CfgPrtUart", expect: 20, got: payload.len() });
        }
        if !UartPortId::is_valid(payload[0]) {
            return Err(ParserError::InvalidField { packet: "CfgPrtUart", field: "portid" });
        }
        Ok(())
    }

    /// Length of the payload.
    pub fn payload_len(&self) -> (r: usize)
        ensures
            r == self.0@.len(),
    {
        self.0.len()
    }

    /// Port identifier.
    pub fn portid_raw(&self) -> (r: u8)
        requires
            Self::spec_validate(self.0@) is Ok,
        ensures
            r == self.0@[0],
    {
        self.0[0]
    }

    /// Port identifier.
    pub fn portid(&self) -> (r: UartPortId)
        requires
            Self::spec_validate(self.0@) is Ok,
        ensures
            r == UartPortId::spec_from_raw(self.0@[0]),
    {
        UartPortId::from_unchecked(self.0[0])
    }

    pub fn reserved0(&self) -> (r: u8)
        requires
            Self::spec_validate(self.0@) is Ok,
        ensures
            r == self.0@[1],
    {
        self.0[1]
    }

    /// TX ready PIN configuration.
    pub fn tx_ready(&self) -> (r: u16)
        requires
            Self::spec_validate(self.0@) is Ok,
        ensures
            r == le_u16(self.0@, 2),
    {
        read_u16_le(self.0, 2)
    }

    /// Mode flags.
    pub fn mode(&self) -> (r: u32)
        requires
            Self::spec_validate(self.0@) is Ok,
        ensures
            r == le_u32(self.0@, 4),
    {
        read_u32_le(self.0, 4)
    }

    /// Baud rate (bits/s).
    pub fn baud_rate(&self) -> (r: u32)
        requires
            Self::spec_validate(self.0@) is Ok,
        ensures
            r == le_u32(self.0@, 8),
    {
        read_u32_le(self.0, 8)
    }

    /// Active input protocols.
    pub fn in_proto_mask(&self) -> (r: u16)
        requires
            Self::spec_validate(self.0@) is Ok,
        ensures
            r == le_u16(self.0@, 12),
    {
        read_u16_le(self.0, 12)
    }

    /// Active output protocols.
    pub fn out_proto_mask(&self) -> (r: u16)
        requires
            Self::spec_validate(self.0@) is Ok,
        ensures
            r == le_u16(self.0@, 14),
    {
        read_u16_le(self.0, 14)
    }

    pub fn flags(&self) -> (r: u16)
        requires
            Self::spec_validate(self.0@) is Ok,
        ensures
            r == le_u16(self.0@, 16),
    {
        read_u16_le(self.0, 16)
    }

    pub fn reserved5(&self) -> (r: u16)
        requires
            Self::spec_validate(self.0@) is Ok,
        ensures
            r == le_u16(self.0@, 18),
    {
        read_u16_le(self.0, 18)
    }

}

/// Builder of [CfgPrtUart] packets: the raw values of the fields.
pub struct CfgPrtUartBuilder {
    /// Port identifier.
    pub portid: UartPortId,
    pub reserved0: u8,
    /// TX ready PIN configuration.
    pub tx_ready: u16,
    /// Mode flags.
    pub mode: u32,
    /// Baud rate (bits/s).
    pub baud_rate: u32,
    /// Active input protocols.
    pub in_proto_mask: u16,
    /// Active output protocols.
    pub out_proto_mask: u16,
    pub flags: u16,
    pub reserved5: u16,
}

impl CfgPrtUartBuilder {
    /// The payload these fields make.
    pub open spec fn payload(&self) -> Seq<u8> {
        seq![self.portid.spec_into_raw()]
            + seq![self.reserved0]
            + u16_le_bytes(self.tx_ready)
            + u32_le_bytes(self.mode)
            + u32_le_bytes(self.baud_rate)
            + u16_le_bytes(self.in_proto_mask)
            + u16_le_bytes(self.out_proto_mask)
            + u16_le_bytes(self.flags)
            + u16_le_bytes(self.reserved5)
    }

    /// The whole packet frame.
    pub fn into_packet_bytes(self) -> (r: [u8; 28])
        ensures
            r@ == ubx_frame(CfgPrtUart::CLASS, CfgPrtUart::ID, self.payload()),
    {
        let mut payload: Vec<u8> = Vec::new();
        payload.push(self.portid.into_raw());
        payload.push(self.reserved0);
        extend_vec(&mut payload, u16_to_le(self.tx_ready).as_slice());
        extend_vec(&mut payload, u32_to_le(self.mode).as_slice());
        extend_vec(&mut payload, u32_to_le(self.baud_rate).as_slice());
        extend_vec(&mut payload, u16_to_le(self.in_proto_mask).as_slice());
        extend_vec(&mut payload, u16_to_le(self.out_proto_mask).as_slice());
        extend_vec(&mut payload, u16_to_le(self.flags).as_slice());
        extend_vec(&mut payload, u16_to_le(self.reserved5).as_slice());
        proof {
            assert(payload@ =~= self.payload());
            lemma_ubx_frame_layout(CfgPrtUart::CLASS, CfgPrtUart::ID, payload@, Seq::<u8>::empty());
            assert(ubx_frame(CfgPrtUart::CLASS, CfgPrtUart::ID, payload@) + Seq::<u8>::empty() =~= ubx_frame(
                CfgPrtUart::CLASS,
                CfgPrtUart::ID,
                payload@,
            ));
        }
        let frame = build_frame(CfgPrtUart::CLASS, CfgPrtUart::ID, payload.as_slice());
        vec_into_array::<28>(&frame)
    }
}

impl UbxPacketCreator for CfgPrtUartBuilder {
    open spec fn packet_bytes(&self) -> Seq<u8> {
        ubx_frame(CfgPrtUart::CLASS, CfgPrtUart::ID, self.payload())
    }

    fn create_packet<T: MemWriter>(self, out: &mut T) -> (r: Result<(), MemWriterError<T::Error>>) {
        let bytes = self.into_packet_bytes();
        out.reserve_allocate(28)?;
        out.write(bytes.as_slice())
    }
}

/// Reading back what a [CfgPrtUartBuilder] writes: the payload validates, and
/// each getter of [CfgPrtUartRef] gives the builder's field.
pub proof fn lemma_cfg_prt_uart_fields_roundtrip(b: CfgPrtUartBuilder)
    ensures
        CfgPrtUartRef::spec_validate(b.payload()) is Ok,
        UartPortId::spec_from_raw(b.payload()[0]) == b.portid,
        b.payload()[1] == b.reserved0,
        le_u16(b.payload(), 2) == b.tx_ready,
        le_u32(b.payload(), 4) == b.mode,
        le_u32(b.payload(), 8) == b.baud_rate,
        le_u16(b.payload(), 12) == b.in_proto_mask,
        le_u16(b.payload(), 14) == b.out_proto_mask,
        le_u16(b.payload(), 16) == b.flags,
        le_u16(b.payload(), 18) == b.reserved5,
{
    assert(b.payload().len() == 20);
    b.portid.lemma_raw_roundtrip();
    assert(b.payload()[0] == b.portid.spec_into_raw());
    assert(b.payload()[1] == b.reserved0);
    lemma_u16_le_roundtrip(b.tx_ready);
    assert(b.payload().subrange(2, 4) =~= u16_le_bytes(b.tx_ready));
    assert(le_u16(b.payload(), 2) == le_u16(u16_le_bytes(b.tx_ready), 0));
    lemma_u32_le_roundtrip(b.mode);
    assert(b.payload().subrange(4, 8) =~= u32_le_bytes(b.mode));
    assert(le_u32(b.payload(), 4) == le_u32(u32_le_bytes(b.mode), 0));
    lemma_u32_le_roundtrip(b.baud_rate);
    assert(b.payload().subrange(8, 12) =~= u32_le_bytes(b.baud_rate));
    assert(le_u32(b.payload(), 8) == le_u32(u32_le_bytes(b.baud_rate), 0));
    lemma_u16_le_roundtrip(b.in_proto_mask);
    assert(b.payload().subrange(12, 14) =~= u16_le_bytes(b.in_proto_mask));
    assert(le_u16(b.payload(), 12) == le_u16(u16_le_bytes(b.in_proto_mask), 0));
    lemma_u16_le_roundtrip(b.out_proto_mask);
    assert(b.payload().subrange(14, 16) =~= u16_le_bytes(b.out_proto_mask));
    assert(le_u16(b.payload(), 14) == le_u16(u16_le_bytes(b.out_proto_mask), 0));
    lemma_u16_le_roundtrip(b.flags);
    assert(b.payload().subrange(16, 18) =~= u16_le_bytes(b.flags));
    assert(le_u16(b.payload(), 16) == le_u16(u16_le_bytes(b.flags), 0));
    lemma_u16_le_roundtrip(b.reserved5);
    assert(b.payload().subrange(18, 20) =~= u16_le_bytes(b.reserved5));
    assert(le_u16(b.payload(), 18) == le_u16(u16_le_bytes(b.reserved5), 0));
}

/// Port configuration for the SPI port.
pub struct CfgPrtSpi;

impl UbxPacketMeta for CfgPrtSpi {
    const CLASS: u8 = 0x06;
    const ID: u8 = 0x00;
    const MAX_PAYLOAD_LEN: u16 = 20;

    fn fixed_payload_len() -> (r: Option<u16>)
        ensures
            r == Some(20u16),
    {
        Some(20)
    }
}

/// Payload of a [CfgPrtSpi] packet.
pub struct CfgPrtSpiRef<'a>(pub &'a [u8]);

impl<'a> CfgPrtSpiRef<'a> {
    /// The outcome of validating a payload: its length, then each field
    /// that only allows some values.
    pub open spec fn spec_validate(payload: Seq<u8>) -> Result<(), ParserError> {
        if payload.len() != 20 {
            Err(ParserError::InvalidPacketLen { packet: "CfgPrtSpi", expect: 20, got: payload.len() as usize })
        }
        else if !SpiPortId::spec_is_valid(payload[0]) {
            Err(ParserError::InvalidField { packet: "CfgPrtSpi", field: "portid" })
        }
        else {
            Ok(())
        }
    }

    /// Checks that `payload` is a valid [CfgPrtSpi] payload.
    pub fn validate(payload: &[u8]) -> (r: Result<(), ParserError>)
        ensures
            r == Self::spec_validate(payload@),
    {
        if payload.len() != 20 {
            return Err(ParserError::InvalidPacketLen { packet: "CfgPrtSpi", expect: 20, got: payload.len() });
        }
        if !SpiPortId::is_valid(payload[0]) {
            return Err(ParserError::InvalidField { packet: "CfgPrtSpi", field: "portid" });
        }
        Ok(())
    }

    /// Length of the payload.
    pub fn payload_len(&self) -> (r: usize)
        ensures
            r == self.0@.len(),
    {
        self.0.len()
    }

    /// Port identifier.
    pub fn portid_raw(&self) -> (r: u8)
        requires
            Self::spec_validate(self.0@) is Ok,
        ensures
            r == self.0@[0],
    {
        self.0[0]
    }

    /// Port identifier.
    pub fn portid(&self) -> (r: SpiPortId)
        requires
            Self::spec_validate(self.0@) is Ok,
        ensures
            r == SpiPortId::spec_from_raw(self.0@[0]),
    {
        SpiPortId::from_unchecked(self.0[0])
    }

    pub fn reserved0(&self) -> (r: u8)
        requires
            Self::spec_validate(self.0@) is Ok,
        ensures
            r == self.0@[1],
    {
        self.0[1]
    }

    /// TX ready PIN configuration.
    pub fn tx_ready(&self) -> (r: u16)
        requires
            Self::spec_validate(self.0@) is Ok,
        ensures
            r == le_u16(self.0@, 2),
    {
        read_u16_le(self.0, 2)
    }

    /// Mode flags.
    pub fn mode(&self) -> (r: u32)
        requires
            Self::spec_validate(self.0@) is Ok,
        ensures
            r == le_u32(self.0@, 4),
    {
        read_u32_le(self.0, 4)
    }

    pub fn reserved3(&self) -> (r: u32)
        requires
            Self::spec_validate(self.0@) is Ok,
        ensures
            r == le_u32(self.0@, 8),
    {
        read_u32_le(self.0, 8)
    }

    /// Active input protocols.
    pub fn in_proto_mask(&self) -> (r: u16)
        requires
            Self::spec_validate(self.0@) is Ok,
        ensures
            r == le_u16(self.0@, 12),
    {
        read_u16_le(self.0, 12)
    }

    /// Active output protocols.
    pub fn out_proto_mask(&self) -> (r: u16)
        requires
            Self::spec_validate(self.0@) is Ok,
        ensures
            r == le_u16(self.0@, 14),
    {
        read_u16_le(self.0, 14)
    }

    pub fn flags(&self) -> (r: u16)
        requires
            Self::spec_validate(self.0@) is Ok,
        ensures
            r == le_u16(self.0@, 16),
    {
        read_u16_le(self.0, 16)
    }

    pub fn reserved5(&self) -> (r: u16)
        requires
            Self::spec_validate(self.0@) is Ok,
        ensures
            r == le_u16(self.0@, 18),
    {
        read_u16_le(self.0, 18)
    }

}

/// Builder of [CfgPrtSpi] packets: the raw values of the fields.
pub struct CfgPrtSpiBuilder {
    /// Port identifier.
    pub portid: SpiPortId,
    pub reserved0: u8,
    /// TX ready PIN configuration.
    pub tx_ready: u16,
    /// Mode flags.
    pub mode: u32,
    pub reserved3: u32,
    /// Active input protocols.
    pub in_proto_mask: u16,
    /// Active output protocols.
    pub out_proto_mask: u16,
    pub flags: u16,
    pub reserved5: u16,
}

impl CfgPrtSpiBuilder {
    /// The payload these fields make.
    pub open spec fn payload(&self) -> Seq<u8> {
        seq![self.portid.spec_into_raw()]
            + seq![self.reserved0]
            + u16_le_bytes(self.tx_ready)
            + u32_le_bytes(self.mode)
            + u32_le_bytes(self.reserved3)
            + u16_le_bytes(self.in_proto_mask)
            + u16_le_bytes(self.out_proto_mask)
            + u16_le_bytes(self.flags)
            + u16_le_bytes(self.reserved5)
    }

    /// The whole packet frame.
    pub fn into_packet_bytes(self) -> (r: [u8; 28])
        ensures
            r@ == ubx_frame(CfgPrtSpi::CLASS, CfgPrtSpi::ID, self.payload()),
    {
        let mut payload: Vec<u8> = Vec::new();
        payload.push(self.portid.into_raw());
        payload.push(self.reserved0);
        extend_vec(&mut payload, u16_to_le(self.tx_ready).as_slice());
        extend_vec(&mut payload, u32_to_le(self.mode).as_slice());
        extend_vec(&mut payload, u32_to_le(self.reserved3).as_slice());
        extend_vec(&mut payload, u16_to_le(self.in_proto_mask).as_slice());
        extend_vec(&mut payload, u16_to_le(self.out_proto_mask).as_slice());
        extend_vec(&mut payload, u16_to_le(self.flags).as_slice());
        extend_vec(&mut payload, u16_to_le(self.reserved5).as_slice());
        proof {
            assert(payload@ =~= self.payload());
            lemma_ubx_frame_layout(CfgPrtSpi::CLASS, CfgPrtSpi::ID, payload@, Seq::<u8>::empty());
            assert(ubx_frame(CfgPrtSpi::CLASS, CfgPrtSpi::ID, payload@) + Seq::<u8>::empty() =~= ubx_frame(
                CfgPrtSpi::CLASS,
                CfgPrtSpi::ID,
                payload@,
            ));
        }
        let frame = build_frame(CfgPrtSpi::CLASS, CfgPrtSpi::ID, payload.as_slice());
        vec_into_array::<28>(&frame)
    }
}

impl UbxPacketCreator for CfgPrtSpiBuilder {
    open spec fn packet_bytes(&self) -> Seq<u8> {
        ubx_frame(CfgPrtSpi::CLASS, CfgPrtSpi::ID, self.payload())
    }

    fn create_packet<T: MemWriter>(self, out: &mut T) -> (r: Result<(), MemWriterError<T::Error>>) {
        let bytes = self.into_packet_bytes();
        out.reserve_allocate(28)?;
        out.write(bytes.as_slice())
    }
}

impl Default for CfgPrtSpiBuilder {
    fn default() -> (r: Self)
        ensures
            r.portid == SpiPortId::Spi,
            r.reserved0 == 0,
            r.tx_ready == 0,
            r.mode == 0,
            r.reserved3 == 0,
            r.in_proto_mask == 0,
            r.out_proto_mask == 0,
            r.flags == 0,
            r.reserved5 == 0,
    {
        let r = CfgPrtSpiBuilder { portid: SpiPortId::Spi, reserved0: 0, tx_ready: 0, mode: 0, reserved3: 0, in_proto_mask: 0, out_proto_mask: 0, flags: 0, reserved5: 0 };
        r
    }
}

/// Reading back what a [CfgPrtSpiBuilder] writes: the payload validates, and
/// each getter of [CfgPrtSpiRef] gives the builder's field.
pub proof fn lemma_cfg_prt_spi_fields_roundtrip(b: CfgPrtSpiBuilder)
    ensures
        CfgPrtSpiRef::spec_validate(b.payload()) is Ok,
        SpiPortId::spec_from_raw(b.payload()[0]) == b.portid,
        b.payload()[1] == b.reserved0,
        le_u16(b.payload(), 2) == b.tx_ready,
        le_u32(b.payload(), 4) == b.mode,
        le_u32(b.payload(), 8) == b.reserved3,
        le_u16(b.payload(), 12) == b.in_proto_mask,
        le_u16(b.payload(), 14) == b.out_proto_mask,
        le_u16(b.payload(), 16) == b.flags,
        le_u16(b.payload(), 18) == b.reserved5,
{
    assert(b.payload().len() == 20);
    b.portid.lemma_raw_roundtrip();
    assert(b.payload()[0] == b.portid.spec_into_raw());
    assert(b.payload()[1] == b.reserved0);
    lemma_u16_le_roundtrip(b.tx_ready);
    assert(b.payload().subrange(2, 4) =~= u16_le_bytes(b.tx_ready));
    assert(le_u16(b.payload(), 2) == le_u16(u16_le_bytes(b.tx_ready), 0));
    lemma_u32_le_roundtrip(b.mode);
    assert(b.payload().subrange(4, 8) =~= u32_le_bytes(b.mode));
    assert(le_u32(b.payload(), 4) == le_u32(u32_le_bytes(b.mode), 0));
    lemma_u32_le_roundtrip(b.reserved3);
    assert(b.payload().subrange(8, 12) =~= u32_le_bytes(b.reserved3));
    assert(le_u32(b.payload(), 8) == le_u32(u32_le_bytes(b.reserved3), 0));
    lemma_u16_le_roundtrip(b.in_proto_mask);
    assert(b.payload().subrange(12, 14) =~= u16_le_bytes(b.in_proto_mask));
    assert(le_u16(b.payload(), 12) == le_u16(u16_le_bytes(b.in_proto_mask), 0));
    lemma_u16_le_roundtrip(b.out_proto_mask);
    assert(b.payload().subrange(14, 16) =~= u16_le_bytes(b.out_proto_mask));
    assert(le_u16(b.payload(), 14) == le_u16(u16_le_bytes(b.out_proto_mask), 0));
    lemma_u16_le_roundtrip(b.flags);
    assert(b.payload().subrange(16, 18) =~= u16_le_bytes(b.flags));
    assert(le_u16(b.payload(), 16) == le_u16(u16_le_bytes(b.flags), 0));
    lemma_u16_le_roundtrip(b.reserved5);
    assert(b.payload().subrange(18, 20) =~= u16_le_bytes(b.reserved5));
    assert(le_u16(b.payload(), 18) == le_u16(u16_le_bytes(b.reserved5), 0));
}

/// Port configuration for I2C.
pub struct CfgPrtI2c;

impl UbxPacketMeta for CfgPrtI2c {
    const CLASS: u8 = 0x06;
    const ID: u8 = 0x00;
    const MAX_PAYLOAD_LEN: u16 = 20;

    fn fixed_payload_len() -> (r: Option<u16>)
        ensures
            r == Some(20u16),
    {
        Some(20)
    }
}

/// Payload of a [CfgPrtI2c] packet.
pub struct CfgPrtI2cRef<'a>(pub &'a [u8]);

impl<'a> CfgPrtI2cRef<'a> {
    /// The outcome of validating a payload: its length, then each field
    /// that only allows some values.
    pub open spec fn spec_validate(payload: Seq<u8>) -> Result<(), ParserError> {
        if payload.len() != 20 {
            Err(ParserError::InvalidPacketLen { packet: "CfgPrtI2c", expect: 20, got: payload.len() as usize })
        }
        else if !I2cPortId::spec_is_valid(payload[0]) {
            Err(ParserError::InvalidField { packet: "CfgPrtI2c", field: "portid" })
        }
        else {
            Ok(())
        }
    }

    /// Checks that `payload` is a valid [CfgPrtI2c] payload.
    pub fn validate(payload: &[u8]) -> (r: Result<(), ParserError>)
        ensures
            r == Self::spec_validate(payload@),
    {
        if payload.len() != 20 {
            return Err(ParserError::InvalidPacketLen { packet: "CfgPrtI2c", expect: 20, got: payload.len() });
        }
        if !I2cPortId::is_valid(payload[0]) {
            return Err(ParserError::InvalidField { packet: "CfgPrtI2c", field: "portid" });
        }
        Ok(())
    }

    /// Length of the payload.
    pub fn payload_len(&self) -> (r: usize)
        ensures
            r == self.0@.len(),
    {
        self.0.len()
    }

    /// Port identifier.
    pub fn portid_raw(&self) -> (r: u8)
        requires
            Self::spec_validate(self.0@) is Ok,
        ensures
            r == self.0@[0],
    {
        self.0[0]
    }

    /// Port identifier.
    pub fn portid(&self) -> (r: I2cPortId)
        requires
            Self::spec_validate(self.0@) is Ok,
        ensures
            r == I2cPortId::spec_from_raw(self.0@[0]),
    {
        I2cPortId::from_unchecked(self.0[0])
    }

    pub fn reserved1(&self) -> (r: u8)
        requires
            Self::spec_validate(self.0@) is Ok,
        ensures
            r == self.0@[1],
    {
        self.0[1]
    }

    /// TX ready PIN configuration.
    pub fn tx_ready(&self) -> (r: u16)
        requires
            Self::spec_validate(self.0@) is Ok,
        ensures
            r == le_u16(self.0@, 2),
    {
        read_u16_le(self.0, 2)
    }

    /// Mode flags.
    pub fn mode(&self) -> (r: u32)
        requires
            Self::spec_validate(self.0@) is Ok,
        ensures
            r == le_u32(self.0@, 4),
    {
        read_u32_le(self.0, 4)
    }

    pub fn reserved2(&self) -> (r: u32)
        requires
            Self::spec_validate(self.0@) is Ok,
        ensures
            r == le_u32(self.0@, 8),
    {
        read_u32_le(self.0, 8)
    }

    /// Active input protocols.
    pub fn in_proto_mask(&self) -> (r: u16)
        requires
            Self::spec_validate(self.0@) is Ok,
        ensures
            r == le_u16(self.0@, 12),
    {
        read_u16_le(self.0, 12)
    }

    /// Active output protocols.
    pub fn out_proto_mask(&self) -> (r: u16)
        requires
            Self::spec_validate(self.0@) is Ok,
        ensures
            r == le_u16(self.0@, 14),
    {
        read_u16_le(self.0, 14)
    }

    pub fn flags(&self) -> (r: u16)
        requires
            Self::spec_validate(self.0@) is Ok,
        ensures
            r == le_u16(self.0@, 16),
    {
        read_u16_le(self.0, 16)
    }

    pub fn reserved3(&self) -> (r: u16)
        requires
            Self::spec_validate(self.0@) is Ok,
        ensures
            r == le_u16(self.0@, 18),
    {
        read_u16_le(self.0, 18)
    }

}

/// Builder of [CfgPrtI2c] packets: the raw values of the fields.
pub struct CfgPrtI2cBuilder {
    /// Port identifier.
    pub portid: I2cPortId,
    pub reserved1: u8,
    /// TX ready PIN configuration.
    pub tx_ready: u16,
    /// Mode flags.
    pub mode: u32,
    pub reserved2: u32,
    /// Active input protocols.
    pub in_proto_mask: u16,
    /// Active output protocols.
    pub out_proto_mask: u16,
    pub flags: u16,
    pub reserved3: u16,
}

impl CfgPrtI2cBuilder {
    /// The payload these fields make.
    pub open spec fn payload(&self) -> Seq<u8> {
        seq![self.portid.spec_into_raw()]
            + seq![self.reserved1]
            + u16_le_bytes(self.tx_ready)
            + u32_le_bytes(self.mode)
            + u32_le_bytes(self.reserved2)
            + u16_le_bytes(self.in_proto_mask)
            + u16_le_bytes(self.out_proto_mask)
            + u16_le_bytes(self.flags)
            + u16_le_bytes(self.reserved3)
    }

    /// The whole packet frame.
    pub fn into_packet_bytes(self) -> (r: [u8; 28])
        ensures
            r@ == ubx_frame(CfgPrtI2c::CLASS, CfgPrtI2c::ID, self.payload()),
    {
        let mut payload: Vec<u8> = Vec::new();
        payload.push(self.portid.into_raw());
        payload.push(self.reserved1);
        extend_vec(&mut payload, u16_to_le(self.tx_ready).as_slice());
        extend_vec(&mut payload, u32_to_le(self.mode).as_slice());
        extend_vec(&mut payload, u32_to_le(self.reserved2).as_slice());
        extend_vec(&mut payload, u16_to_le(self.in_proto_mask).as_slice());
        extend_vec(&mut payload, u16_to_le(self.out_proto_mask).as_slice());
        extend_vec(&mut payload, u16_to_le(self.flags).as_slice());
        extend_vec(&mut payload, u16_to_le(self.reserved3).as_slice());
        proof {
            assert(payload@ =~= self.payload());
            lemma_ubx_frame_layout(CfgPrtI2c::CLASS, CfgPrtI2c::ID, payload@, Seq::<u8>::empty());
            assert(ubx_frame(CfgPrtI2c::CLASS, CfgPrtI2c::ID, payload@) + Seq::<u8>::empty() =~= ubx_frame(
                CfgPrtI2c::CLASS,
                CfgPrtI2c::ID,
                payload@,
            ));
        }
        let frame = build_frame(CfgPrtI2c::CLASS, CfgPrtI2c::ID, payload.as_slice());
        vec_into_array::<28>(&frame)
    }
}

impl UbxPacketCreator for CfgPrtI2cBuilder {
    open spec fn packet_bytes(&self) -> Seq<u8> {
        ubx_frame(CfgPrtI2c::CLASS, CfgPrtI2c::ID, self.payload())
    }

    fn create_packet<T: MemWriter>(self, out: &mut T) -> (r: Result<(), MemWriterError<T::Error>>) {
        let bytes = self.into_packet_bytes();
        out.reserve_allocate(28)?;
        out.write(bytes.as_slice())
    }
}

impl Default for CfgPrtI2cBuilder {
    fn default() -> (r: Self)
        ensures
            r.portid == I2cPortId::I2c,
            r.reserved1 == 0,
            r.tx_ready == 0,
            r.mode == 0,
            r.reserved2 == 0,
            r.in_proto_mask == 0,
            r.out_proto_mask == 0,
            r.flags == 0,
            r.reserved3 == 0,
    {
        let r = CfgPrtI2cBuilder { portid: I2cPortId::I2c, reserved1: 0, tx_ready: 0, mode: 0, reserved2: 0, in_proto_mask: 0, out_proto_mask: 0, flags: 0, reserved3: 0 };
        r
    }
}

/// Reading back what a [CfgPrtI2cBuilder] writes: the payload validates, and
/// each getter of [CfgPrtI2cRef] gives the builder's field.
pub proof fn lemma_cfg_prt_i2c_fields_roundtrip(b: CfgPrtI2cBuilder)
    ensures
        CfgPrtI2cRef::spec_validate(b.payload()) is Ok,
        I2cPortId::spec_from_raw(b.payload()[0]) == b.portid,
        b.payload()[1] == b.reserved1,
        le_u16(b.payload(), 2) == b.tx_ready,
        le_u32(b.payload(), 4) == b.mode,
        le_u32(b.payload(), 8) == b.reserved2,
        le_u16(b.payload(), 12) == b.in_proto_mask,
        le_u16(b.payload(), 14) == b.out_proto_mask,
        le_u16(b.payload(), 16) == b.flags,
        le_u16(b.payload(), 18) == b.reserved3,
{
    assert(b.payload().len() == 20);
    b.portid.lemma_raw_roundtrip();
    assert(b.payload()[0] == b.portid.spec_into_raw());
    assert(b.payload()[1] == b.reserved1);
    lemma_u16_le_roundtrip(b.tx_ready);
    assert(b.payload().subrange(2, 4) =~= u16_le_bytes(b.tx_ready));
    assert(le_u16(b.payload(), 2) == le_u16(u16_le_bytes(b.tx_ready), 0));
    lemma_u32_le_roundtrip(b.mode);
    assert(b.payload().subrange(4, 8) =~= u32_le_bytes(b.mode));
    assert(le_u32(b.payload(), 4) == le_u32(u32_le_bytes(b.mode), 0));
    lemma_u32_le_roundtrip(b.reserved2);
    assert(b.payload().subrange(8, 12) =~= u32_le_bytes(b.reserved2));
    assert(le_u32(b.payload(), 8) == le_u32(u32_le_bytes(b.reserved2), 0));
    lemma_u16_le_roundtrip(b.in_proto_mask);
    assert(b.payload().subrange(12, 14) =~= u16_le_bytes(b.in_proto_mask));
    assert(le_u16(b.payload(), 12) == le_u16(u16_le_bytes(b.in_proto_mask), 0));
    lemma_u16_le_roundtrip(b.out_proto_mask);
    assert(b.payload().subrange(14, 16) =~= u16_le_bytes(b.out_proto_mask));
    assert(le_u16(b.payload(), 14) == le_u16(u16_le_bytes(b.out_proto_mask), 0));
    lemma_u16_le_roundtrip(b.flags);
    assert(b.payload().subrange(16, 18) =~= u16_le_bytes(b.flags));
    assert(le_u16(b.payload(), 16) == le_u16(u16_le_bytes(b.flags), 0));
    lemma_u16_le_roundtrip(b.reserved3);
    assert(b.payload().subrange(18, 20) =~= u16_le_bytes(b.reserved3));
    assert(le_u16(b.payload(), 18) == le_u16(u16_le_bytes(b.reserved3), 0));
}

/// Information message configuration.
pub struct CfgInf;

impl UbxPacketMeta for CfgInf {
    const CLASS: u8 = 0x06;
    const ID: u8 = 0x02;
    const MAX_PAYLOAD_LEN: u16 = 10;

    fn fixed_payload_len() -> (r: Option<u16>)
        ensures
            r == Some(10u16),
    {
        Some(10)
    }
}

/// Payload of a [CfgInf] packet.
pub struct CfgInfRef<'a>(pub &'a [u8]);

impl<'a> CfgInfRef<'a> {
    /// The outcome of validating a payload: its length, then each field
    /// that only allows some values.
    pub open spec fn spec_validate(payload: Seq<u8>) -> Result<(), ParserError> {
        if payload.len() != 10 {
            Err(ParserError::InvalidPacketLen { packet: "CfgInf", expect: 10, got: payload.len() as usize })
        }
        else {
            Ok(())
        }
    }

    /// Checks that `payload` is a valid [CfgInf] payload.
    pub fn validate(payload: &[u8]) -> (r: Result<(), ParserError>)
        ensures
            r == Self::spec_validate(payload@),
    {
        if payload.len() != 10 {
            return Err(ParserError::InvalidPacketLen { packet: "CfgInf", expect: 10, got: payload.len() });
        }
        Ok(())
    }

    /// Length of the payload.
    pub fn payload_len(&self) -> (r: usize)
        ensures
            r == self.0@.len(),
    {
        self.0.len()
    }

    pub fn protocol_id(&self) -> (r: u8)
        requires
            Self::spec_validate(self.0@) is Ok,
        ensures
            r == self.0@[0],
    {
        self.0[0]
    }

    pub fn reserved(&self) -> (r: &[u8])
        requires
            Self::spec_validate(self.0@) is Ok,
        ensures
            r@ == self.0@.subrange(1, 4),
    {
        slice_subrange(self.0, 1, 4)
    }

    pub fn inf_msg_mask_0(&self) -> (r: u8)
        requires
            Self::spec_validate(self.0@) is Ok,
        ensures
            r == self.0@[4],
    {
        self.0[4]
    }

    pub fn inf_msg_mask_1(&self) -> (r: u8)
        requires
            Self::spec_validate(self.0@) is Ok,
        ensures
            r == self.0@[5],
    {
        self.0[5]
    }

    pub fn inf_msg_mask_2(&self) -> (r: u8)
        requires
            Self::spec_validate(self.0@) is Ok,
        ensures
            r == self.0@[6],
    {
        self.0[6]
    }

    pub fn inf_msg_mask_3(&self) -> (r: u8)
        requires
            Self::spec_validate(self.0@) is Ok,
        ensures
            r == self.0@[7],
    {
        self.0[7]
    }

    pub fn inf_msg_mask_4(&self) -> (r: u8)
        requires
            Self::spec_validate(self.0@) is Ok,
        ensures
            r == self.0@[8],
    {
        self.0[8]
    }

    pub fn inf_msg_mask_5(&self) -> (r: u8)
        requires
            Self::spec_validate(self.0@) is Ok,
        ensures
            r == self.0@[9],
    {
        self.0[9]
    }

}

/// Builder of [CfgInf] packets: the raw values of the fields.
pub struct CfgInfBuilder {
    pub protocol_id: u8,
    pub reserved: [u8; 3],
    pub inf_msg_mask_0: u8,
    pub inf_msg_mask_1: u8,
    pub inf_msg_mask_2: u8,
    pub inf_msg_mask_3: u8,
    pub inf_msg_mask_4: u8,
    pub inf_msg_mask_5: u8,
}

impl CfgInfBuilder {
    /// The payload these fields make.
    pub open spec fn payload(&self) -> Seq<u8> {
        seq![self.protocol_id]
            + self.reserved@
            + seq![self.inf_msg_mask_0]
            + seq![self.inf_msg_mask_1]
            + seq![self.inf_msg_mask_2]
            + seq![self.inf_msg_mask_3]
            + seq![self.inf_msg_mask_4]
            + seq![self.inf_msg_mask_5]
    }

    /// The whole packet frame.
    pub fn into_packet_bytes(self) -> (r: [u8; 18])
        ensures
            r@ == ubx_frame(CfgInf::CLASS, CfgInf::ID, self.payload()),
    {
        let mut payload: Vec<u8> = Vec::new();
        payload.push(self.protocol_id);
        extend_vec(&mut payload, self.reserved.as_slice());
        payload.push(self.inf_msg_mask_0);
        payload.push(self.inf_msg_mask_1);
        payload.push(self.inf_msg_mask_2);
        payload.push(self.inf_msg_mask_3);
        payload.push(self.inf_msg_mask_4);
        payload.push(self.inf_msg_mask_5);
        proof {
            assert(payload@ =~= self.payload());
            lemma_ubx_frame_layout(CfgInf::CLASS, CfgInf::ID, payload@, Seq::<u8>::empty());
            assert(ubx_frame(CfgInf::CLASS, CfgInf::ID, payload@) + Seq::<u8>::empty() =~= ubx_frame(
                CfgInf::CLASS,
                CfgInf::ID,
                payload@,
            ));
        }
        let frame = build_frame(CfgInf::CLASS, CfgInf::ID, payload.as_slice());
        vec_into_array::<18>(&frame)
    }
}

impl UbxPacketCreator for CfgInfBuilder {
    open spec fn packet_bytes(&self) -> Seq<u8> {
        ubx_frame(CfgInf::CLASS, CfgInf::ID, self.payload())
    }

    fn create_packet<T: MemWriter>(self, out: &mut T) -> (r: Result<(), MemWriterError<T::Error>>) {
        let bytes = self.into_packet_bytes();
        out.reserve_allocate(18)?;
        out.write(bytes.as_slice())
    }
}

impl Default for CfgInfBuilder {
    fn default() -> (r: Self)
        ensures
            r.protocol_id == 0,
            r.reserved@ == Seq::<u8>::new(3, |i: int| 0u8),
            r.inf_msg_mask_0 == 0,
            r.inf_msg_mask_1 == 0,
            r.inf_msg_mask_2 == 0,
            r.inf_msg_mask_3 == 0,
            r.inf_msg_mask_4 == 0,
            r.inf_msg_mask_5 == 0,
    {
        let r = CfgInfBuilder { protocol_id: 0, reserved: [0u8; 3], inf_msg_mask_0: 0, inf_msg_mask_1: 0, inf_msg_mask_2: 0, inf_msg_mask_3: 0, inf_msg_mask_4: 0, inf_msg_mask_5: 0 };
        proof {
            assert(r.reserved@ =~= Seq::<u8>::new(3, |i: int| 0u8));
        }
        r
    }
}

/// Reading back what a [CfgInfBuilder] writes: the payload validates, and
/// each getter of [CfgInfRef] gives the builder's field.
pub proof fn lemma_cfg_inf_fields_roundtrip(b: CfgInfBuilder)
    ensures
        CfgInfRef::spec_validate(b.payload()) is Ok,
        b.payload()[0] == b.protocol_id,
        b.payload().subrange(1, 4) == b.reserved@,
        b.payload()[4] == b.inf_msg_mask_0,
        b.payload()[5] == b.inf_msg_mask_1,
        b.payload()[6] == b.inf_msg_mask_2,
        b.payload()[7] == b.inf_msg_mask_3,
        b.payload()[8] == b.inf_msg_mask_4,
        b.payload()[9] == b.inf_msg_mask_5,
{
    assert(b.payload().len() == 10);
    assert(b.payload()[0] == b.protocol_id);
    assert(b.payload().subrange(1, 4) =~= b.reserved@);
    assert(b.payload()[4] == b.inf_msg_mask_0);
    assert(b.payload()[5] == b.inf_msg_mask_1);
    assert(b.payload()[6] == b.inf_msg_mask_2);
    assert(b.payload()[7] == b.inf_msg_mask_3);
    assert(b.payload()[8] == b.inf_msg_mask_4);
    assert(b.payload()[9] == b.inf_msg_mask_5);
}

/// Get/set IMU-mount misalignment configuration.
pub struct CfgEsfAlg;

impl UbxPacketMeta for CfgEsfAlg {
    const CLASS: u8 = 0x06;
    const ID: u8 = 0x56;
    const MAX_PAYLOAD_LEN: u16 = 12;

    fn fixed_payload_len() -> (r: Option<u16>)
        ensures
            r == Some(12u16),
    {
        Some(12)
    }
}

/// Payload of a [CfgEsfAlg] packet.
pub struct CfgEsfAlgRef<'a>(pub &'a [u8]);

impl<'a> CfgEsfAlgRef<'a> {
    /// The outcome of validating a payload: its length, then each field
    /// that only allows some values.
    pub open spec fn spec_validate(payload: Seq<u8>) -> Result<(), ParserError> {
        if payload.len() != 12 {
            Err(ParserError::InvalidPacketLen { packet: "CfgEsfAlg", expect: 12, got: payload.len() as usize })
        }
        else {
            Ok(())
        }
    }

    /// Checks that `payload` is a valid [CfgEsfAlg] payload.
    pub fn validate(payload: &[u8]) -> (r: Result<(), ParserError>)
        ensures
            r == Self::spec_validate(payload@),
    {
        if payload.len() != 12 {
            return Err(ParserError::InvalidPacketLen { packet: "CfgEsfAlg", expect: 12, got: payload.len() });
        }
        Ok(())
    }

    /// Length of the payload.
    pub fn payload_len(&self) -> (r: usize)
        ensures
            r == self.0@.len(),
    {
        self.0.len()
    }

    /// Raw flags word.
    pub fn flags_raw(&self) -> (r: u32)
        requires
            Self::spec_validate(self.0@) is Ok,
        ensures
            r == le_u32(self.0@, 0),
    {
        read_u32_le(self.0, 0)
    }

    /// IMU mount yaw angle, in units of 0.01 deg.
    pub fn yaw_raw(&self) -> (r: u32)
        requires
            Self::spec_validate(self.0@) is Ok,
        ensures
            r == le_u32(self.0@, 4),
    {
        read_u32_le(self.0, 4)
    }

    /// IMU mount pitch angle, in units of 0.01 deg.
    pub fn pitch_raw(&self) -> (r: i16)
        requires
            Self::spec_validate(self.0@) is Ok,
        ensures
            r == le_u16(self.0@, 8) as i16,
    {
        read_i16_le(self.0, 8)
    }

    /// IMU mount roll angle, in units of 0.01 deg.
    pub fn roll_raw(&self) -> (r: i16)
        requires
            Self::spec_validate(self.0@) is Ok,
        ensures
            r == le_u16(self.0@, 10) as i16,
    {
        read_i16_le(self.0, 10)
    }

}

/// Builder of [CfgEsfAlg] packets: the raw values of the fields.
pub struct CfgEsfAlgBuilder {
    /// Raw flags word.
    pub flags_raw: u32,
    /// IMU mount yaw angle, in units of 0.01 deg.
    pub yaw_raw: u32,
    /// IMU mount pitch angle, in units of 0.01 deg.
    pub pitch_raw: i16,
    /// IMU mount roll angle, in units of 0.01 deg.
    pub roll_raw: i16,
}

impl CfgEsfAlgBuilder {
    /// The payload these fields make.
    pub open spec fn payload(&self) -> Seq<u8> {
        u32_le_bytes(self.flags_raw)
            + u32_le_bytes(self.yaw_raw)
            + u16_le_bytes(self.pitch_raw as u16)
            + u16_le_bytes(self.roll_raw as u16)
    }

    /// The whole packet frame.
    pub fn into_packet_bytes(self) -> (r: [u8; 20])
        ensures
            r@ == ubx_frame(CfgEsfAlg::CLASS, CfgEsfAlg::ID, self.payload()),
    {
        let mut payload: Vec<u8> = Vec::new();
        extend_vec(&mut payload, u32_to_le(self.flags_raw).as_slice());
        extend_vec(&mut payload, u32_to_le(self.yaw_raw).as_slice());
        extend_vec(&mut payload, u16_to_le(self.pitch_raw as u16).as_slice());
        extend_vec(&mut payload, u16_to_le(self.roll_raw as u16).as_slice());
        proof {
            assert(payload@ =~= self.payload());
            lemma_ubx_frame_layout(CfgEsfAlg::CLASS, CfgEsfAlg::ID, payload@, Seq::<u8>::empty());
            assert(ubx_frame(CfgEsfAlg::CLASS, CfgEsfAlg::ID, payload@) + Seq::<u8>::empty() =~= ubx_frame(
                CfgEsfAlg::CLASS,
                CfgEsfAlg::ID,
                payload@,
            ));
        }
        let frame = build_frame(CfgEsfAlg::CLASS, CfgEsfAlg::ID, payload.as_slice());
        vec_into_array::<20>(&frame)
    }
}

impl UbxPacketCreator for CfgEsfAlgBuilder {
    open spec fn packet_bytes(&self) -> Seq<u8> {
        ubx_frame(CfgEsfAlg::CLASS, CfgEsfAlg::ID, self.payload())
    }

    fn create_packet<T: MemWriter>(self, out: &mut T) -> (r: Result<(), MemWriterError<T::Error>>) {
        let bytes = self.into_packet_bytes();
        out.reserve_allocate(20)?;
        out.write(bytes.as_slice())
    }
}

impl Default for CfgEsfAlgBuilder {
    fn default() -> (r: Self)
        ensures
            r.flags_raw == 0,
            r.yaw_raw == 0,
            r.pitch_raw == 0,
            r.roll_raw == 0,
    {
        let r = CfgEsfAlgBuilder { flags_raw: 0, yaw_raw: 0, pitch_raw: 0, roll_raw: 0 };
        r
    }
}

/// Reading back what a [CfgEsfAlgBuilder] writes: the payload validates, and
/// each getter of [CfgEsfAlgRef] gives the builder's field.
pub proof fn lemma_cfg_esf_alg_fields_roundtrip(b: CfgEsfAlgBuilder)
    ensures
        CfgEsfAlgRef::spec_validate(b.payload()) is Ok,
        le_u32(b.payload(), 0) == b.flags_raw,
        le_u32(b.payload(), 4) == b.yaw_raw,
        le_u16(b.payload(), 8) as i16 == b.pitch_raw,
        le_u16(b.payload(), 10) as i16 == b.roll_raw,
{
    assert(b.payload().len() == 12);
    lemma_u32_le_roundtrip(b.flags_raw);
    assert(b.payload().subrange(0, 4) =~= u32_le_bytes(b.flags_raw));
    assert(le_u32(b.payload(), 0) == le_u32(u32_le_bytes(b.flags_raw), 0));
    lemma_u32_le_roundtrip(b.yaw_raw);
    assert(b.payload().subrange(4, 8) =~= u32_le_bytes(b.yaw_raw));
    assert(le_u32(b.payload(), 4) == le_u32(u32_le_bytes(b.yaw_raw), 0));
    lemma_u16_le_roundtrip(b.pitch_raw as u16);
    lemma_i16_u16_roundtrip(b.pitch_raw);
    assert(b.payload().subrange(8, 10) =~= u16_le_bytes(b.pitch_raw as u16));
    assert(le_u16(b.payload(), 8) == le_u16(u16_le_bytes(b.pitch_raw as u16), 0));
    lemma_u16_le_roundtrip(b.roll_raw as u16);
    lemma_i16_u16_roundtrip(b.roll_raw);
    assert(b.payload().subrange(10, 12) =~= u16_le_bytes(b.roll_raw as u16));
    assert(le_u16(b.payload(), 10) == le_u16(u16_le_bytes(b.roll_raw as u16), 0));
}

/// Navigation and measurement rate settings.
pub struct CfgRate;

impl UbxPacketMeta for CfgRate {
    const CLASS: u8 = 6;
    const ID: u8 = 8;
    const MAX_PAYLOAD_LEN: u16 = 6;

    fn fixed_payload_len() -> (r: Option<u16>)
        ensures
            r == Some(6u16),
    {
        Some(6)
    }
}

/// Builder of [CfgRate] packets: the raw values of the fields.
pub struct CfgRateBuilder {
    /// Time between measurements (ms).
    pub measure_rate_ms: u16,
    /// Number of measurements for one navigation solution.
    pub nav_rate: u16,
    /// Alignment to reference time.
    pub time_ref: u16,
}

impl CfgRateBuilder {
    /// The payload these fields make.
    pub open spec fn payload(&self) -> Seq<u8> {
        u16_le_bytes(self.measure_rate_ms)
            + u16_le_bytes(self.nav_rate)
            + u16_le_bytes(self.time_ref)
    }

    /// The whole packet frame.
    pub fn into_packet_bytes(self) -> (r: [u8; 14])
        ensures
            r@ == ubx_frame(CfgRate::CLASS, CfgRate::ID, self.payload()),
    {
        let mut payload: Vec<u8> = Vec::new();
        extend_vec(&mut payload, u16_to_le(self.measure_rate_ms).as_slice());
        extend_vec(&mut payload, u16_to_le(self.nav_rate).as_slice());
        extend_vec(&mut payload, u16_to_le(self.time_ref).as_slice());
        proof {
            assert(payload@ =~= self.payload());
            lemma_ubx_frame_layout(CfgRate::CLASS, CfgRate::ID, payload@, Seq::<u8>::empty());
            assert(ubx_frame(CfgRate::CLASS, CfgRate::ID, payload@) + Seq::<u8>::empty() =~= ubx_frame(
                CfgRate::CLASS,
                CfgRate::ID,
                payload@,
            ));
        }
        let frame = build_frame(CfgRate::CLASS, CfgRate::ID, payload.as_slice());
        vec_into_array::<14>(&frame)
    }
}

impl UbxPacketCreator for CfgRateBuilder {
    open spec fn packet_bytes(&self) -> Seq<u8> {
        ubx_frame(CfgRate::CLASS, CfgRate::ID, self.payload())
    }

    fn create_packet<T: MemWriter>(self, out: &mut T) -> (r: Result<(), MemWriterError<T::Error>>) {
        let bytes = self.into_packet_bytes();
        out.reserve_allocate(14)?;
        out.write(bytes.as_slice())
    }
}

/// Reset receiver / clear backup data structures.
pub struct CfgRst;

impl UbxPacketMeta for CfgRst {
    const CLASS: u8 = 6;
    const ID: u8 = 4;
    const MAX_PAYLOAD_LEN: u16 = 4;

    fn fixed_payload_len() -> (r: Option<u16>)
        ensures
            r == Some(4u16),
    {
        Some(4)
    }
}

/// Builder of [CfgRst] packets: the raw values of the fields.
pub struct CfgRstBuilder {
    /// Battery backed RAM sections to clear.
    pub nav_bbr_mask: u16,
    /// Type of reset.
    pub reset_mode: ResetMode,
    pub reserved1: u8,
}

impl CfgRstBuilder {
    /// The payload these fields make.
    pub open spec fn payload(&self) -> Seq<u8> {
        u16_le_bytes(self.nav_bbr_mask)
            + seq![self.reset_mode.spec_into_raw()]
            + seq![self.reserved1]
    }

    /// The whole packet frame.
    pub fn into_packet_bytes(self) -> (r: [u8; 12])
        ensures
            r@ == ubx_frame(CfgRst::CLASS, CfgRst::ID, self.payload()),
    {
        let mut payload: Vec<u8> = Vec::new();
        extend_vec(&mut payload, u16_to_le(self.nav_bbr_mask).as_slice());
        payload.push(self.reset_mode.into_raw());
        payload.push(self.reserved1);
        proof {
            assert(payload@ =~= self.payload());
            lemma_ubx_frame_layout(CfgRst::CLASS, CfgRst::ID, payload@, Seq::<u8>::empty());
            assert(ubx_frame(CfgRst::CLASS, CfgRst::ID, payload@) + Seq::<u8>::empty() =~= ubx_frame(
                CfgRst::CLASS,
                CfgRst::ID,
                payload@,
            ));
        }
        let frame = build_frame(CfgRst::CLASS, CfgRst::ID, payload.as_slice());
        vec_into_array::<12>(&frame)
    }
}

impl UbxPacketCreator for CfgRstBuilder {
    open spec fn packet_bytes(&self) -> Seq<u8> {
        ubx_frame(CfgRst::CLASS, CfgRst::ID, self.payload())
    }

    fn create_packet<T: MemWriter>(self, out: &mut T) -> (r: Result<(), MemWriterError<T::Error>>) {
        let bytes = self.into_packet_bytes();
        out.reserve_allocate(12)?;
        out.write(bytes.as_slice())
    }
}

/// Set message rate configuration for the current port.
pub struct CfgMsgSinglePort;

impl UbxPacketMeta for CfgMsgSinglePort {
    const CLASS: u8 = 6;
    const ID: u8 = 1;
    const MAX_PAYLOAD_LEN: u16 = 3;

    fn fixed_payload_len() -> (r: Option<u16>)
        ensures
            r == Some(3u16),
    {
        Some(3)
    }
}

/// Builder of [CfgMsgSinglePort] packets: the raw values of the fields.
pub struct CfgMsgSinglePortBuilder {
    pub msg_class: u8,
    pub msg_id: u8,
    /// Send rate on the current port.
    pub rate: u8,
}

impl CfgMsgSinglePortBuilder {
    /// The payload these fields make.
    pub open spec fn payload(&self) -> Seq<u8> {
        seq![self.msg_class]
            + seq![self.msg_id]
            + seq![self.rate]
    }

    /// The whole packet frame.
    pub fn into_packet_bytes(self) -> (r: [u8; 11])
        ensures
            r@ == ubx_frame(CfgMsgSinglePort::CLASS, CfgMsgSinglePort::ID, self.payload()),
    {
        let mut payload: Vec<u8> = Vec::new();
        payload.push(self.msg_class);
        payload.push(self.msg_id);
        payload.push(self.rate);
        proof {
            assert(payload@ =~= self.payload());
            lemma_ubx_frame_layout(CfgMsgSinglePort::CLASS, CfgMsgSinglePort::ID, payload@, Seq::<u8>::empty());
            assert(ubx_frame(CfgMsgSinglePort::CLASS, CfgMsgSinglePort::ID, payload@) + Seq::<u8>::empty() =~= ubx_frame(
                CfgMsgSinglePort::CLASS,
                CfgMsgSinglePort::ID,
                payload@,
            ));
        }
        let frame = build_frame(CfgMsgSinglePort::CLASS, CfgMsgSinglePort::ID, payload.as_slice());
        vec_into_array::<11>(&frame)
    }
}

impl UbxPacketCreator for CfgMsgSinglePortBuilder {
    open spec fn packet_bytes(&self) -> Seq<u8> {
        ubx_frame(CfgMsgSinglePort::CLASS, CfgMsgSinglePort::ID, self.payload())
    }

    fn create_packet<T: MemWriter>(self, out: &mut T) -> (r: Result<(), MemWriterError<T::Error>>) {
        let bytes = self.into_packet_bytes();
        out.reserve_allocate(11)?;
        out.write(bytes.as_slice())
    }
}

/// Set message rate configuration for all ports.
pub struct CfgMsgAllPorts;

impl UbxPacketMeta for CfgMsgAllPorts {
    const CLASS: u8 = 6;
    const ID: u8 = 1;
    const MAX_PAYLOAD_LEN: u16 = 8;

    fn fixed_payload_len() -> (r: Option<u16>)
        ensures
            r == Some(8u16),
    {
        Some(8)
    }
}

/// Builder of [CfgMsgAllPorts] packets: the raw values of the fields.
pub struct CfgMsgAllPortsBuilder {
    pub msg_class: u8,
    pub msg_id: u8,
    /// Send rate on each of the six I/O ports.
    pub rates: [u8; 6],
}

impl CfgMsgAllPortsBuilder {
    /// The payload these fields make.
    pub open spec fn payload(&self) -> Seq<u8> {
        seq![self.msg_class]
            + seq![self.msg_id]
            + self.rates@
    }

    /// The whole packet frame.
    pub fn into_packet_bytes(self) -> (r: [u8; 16])
        ensures
            r@ == ubx_frame(CfgMsgAllPorts::CLASS, CfgMsgAllPorts::ID, self.payload()),
    {
        let mut payload: Vec<u8> = Vec::new();
        payload.push(self.msg_class);
        payload.push(self.msg_id);
        extend_vec(&mut payload, self.rates.as_slice());
        proof {
            assert(payload@ =~= self.payload());
            lemma_ubx_frame_layout(CfgMsgAllPorts::CLASS, CfgMsgAllPorts::ID, payload@, Seq::<u8>::empty());
            assert(ubx_frame(CfgMsgAllPorts::CLASS, CfgMsgAllPorts::ID, payload@) + Seq::<u8>::empty() =~= ubx_frame(
                CfgMsgAllPorts::CLASS,
                CfgMsgAllPorts::ID,
                payload@,
            ));
        }
        let frame = build_frame(CfgMsgAllPorts::CLASS, CfgMsgAllPorts::ID, payload.as_slice());
        vec_into_array::<16>(&frame)
    }
}

impl UbxPacketCreator for CfgMsgAllPortsBuilder {
    open spec fn packet_bytes(&self) -> Seq<u8> {
        ubx_frame(CfgMsgAllPorts::CLASS, CfgMsgAllPorts::ID, self.payload())
    }

    fn create_packet<T: MemWriter>(self, out: &mut T) -> (r: Result<(), MemWriterError<T::Error>>) {
        let bytes = self.into_packet_bytes();
        out.reserve_allocate(16)?;
        out.write(bytes.as_slice())
    }
}

/// The class, message id and longest payload of each packet type of this
/// module.
pub proof fn lemma_packet_ids()
    ensures
        CfgNav5::CLASS == 0x06,
        CfgNav5::ID == 0x24,
        CfgNav5::MAX_PAYLOAD_LEN == 36,
        CfgNavX5::CLASS == 0x06,
        CfgNavX5::ID == 0x23,
        CfgNavX5::MAX_PAYLOAD_LEN == 40,
        CfgOdo::CLASS == 0x06,
        CfgOdo::ID == 0x1E,
        CfgOdo::MAX_PAYLOAD_LEN == 20,
        CfgItfm::CLASS == 0x06,
        CfgItfm::ID == 0x39,
        CfgItfm::MAX_PAYLOAD_LEN == 8,
        CfgPrtUart::CLASS == 0x06,
        CfgPrtUart::ID == 0x00,
        CfgPrtUart::MAX_PAYLOAD_LEN == 20,
        CfgPrtSpi::CLASS == 0x06,
        CfgPrtSpi::ID == 0x00,
        CfgPrtSpi::MAX_PAYLOAD_LEN == 20,
        CfgPrtI2c::CLASS == 0x06,
        CfgPrtI2c::ID == 0x00,
        CfgPrtI2c::MAX_PAYLOAD_LEN == 20,
        CfgInf::CLASS == 0x06,
        CfgInf::ID == 0x02,
        CfgInf::MAX_PAYLOAD_LEN == 10,
        CfgEsfAlg::CLASS == 0x06,
        CfgEsfAlg::ID == 0x56,
        CfgEsfAlg::MAX_PAYLOAD_LEN == 12,
        CfgRate::CLASS == 6,
        CfgRate::ID == 8,
        CfgRate::MAX_PAYLOAD_LEN == 6,
        CfgRst::CLASS == 6,
        CfgRst::ID == 4,
        CfgRst::MAX_PAYLOAD_LEN == 4,
        CfgMsgSinglePort::CLASS == 6,
        CfgMsgSinglePort::ID == 1,
        CfgMsgSinglePort::MAX_PAYLOAD_LEN == 3,
        CfgMsgAllPorts::CLASS == 6,
        CfgMsgAllPorts::ID == 1,
        CfgMsgAllPorts::MAX_PAYLOAD_LEN == 8,
{
}

} // verus!
