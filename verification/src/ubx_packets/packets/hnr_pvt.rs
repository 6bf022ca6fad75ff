use vstd::prelude::*;

use crate::buffer::slice_subrange;
use crate::error::ParserError;
use crate::ubx_packets::bytes_le::{le_u16, le_u32, read_i32_le, read_u16_le, read_u32_le};
use crate::ubx_packets::UbxPacketMeta;
use crate::ubx_packets::packets::enums::{GnssFixType};

verus! {

/// High rate output of PVT solution.
pub struct HnrPvt;

impl UbxPacketMeta for HnrPvt {
    const CLASS: u8 = 0x28;
    const ID: u8 = 0x00;
    const MAX_PAYLOAD_LEN: u16 = 72;

    fn fixed_payload_len() -> (r: Option<u16>)
        ensures
            r == Some(72u16),
    {
        Some(72)
    }
}

/// Payload of a [HnrPvt] packet.
pub struct HnrPvtRef<'a>(pub &'a [u8]);

impl<'a> HnrPvtRef<'a> {
    /// The outcome of validating a payload: its length, then each field
    /// that only allows some values.
    pub open spec fn spec_validate(payload: Seq<u8>) -> Result<(), ParserError> {
        if payload.len() != 72 {
            Err(ParserError::InvalidPacketLen { packet: "HnrPvt", expect: 72, got: payload.len() as usize })
        }
        else {
            Ok(())
        }
    }

    /// Checks that `payload` is a valid [HnrPvt] payload.
    pub fn validate(payload: &[u8]) -> (r: Result<(), ParserError>)
        ensures
            r == Self::spec_validate(payload@),
    {
        if payload.len() != 72 {
            return Err(ParserError::InvalidPacketLen { packet: "HnrPvt", expect: 72, got: payload.len() });
        }
        Ok(())
    }

    /// Length of the payload.
    pub fn payload_len(&self) -> (r: usize)
        ensures
            r == self.0@.len(),
    {
        self.0.len()
    }

    /// GPS time of week (ms).
    pub fn itow(&self) -> (r: u32)
        requires
            Self::spec_validate(self.0@) is Ok,
        ensures
            r == le_u32(self.0@, 0),
    {
        read_u32_le(self.0, 0)
    }

    pub fn year(&self) -> (r: u16)
        requires
            Self::spec_validate(self.0@) is Ok,
        ensures
            r == le_u16(self.0@, 4),
    {
        read_u16_le(self.0, 4)
    }

    pub fn month(&self) -> (r: u8)
        requires
            Self::spec_validate(self.0@) is Ok,
        ensures
            r == self.0@[6],
    {
        self.0[6]
    }

    pub fn day(&self) -> (r: u8)
        requires
            Self::spec_validate(self.0@) is Ok,
        ensures
            r == self.0@[7],
    {
        self.0[7]
    }

    pub fn hour(&self) -> (r: u8)
        requires
            Self::spec_validate(self.0@) is Ok,
        ensures
            r == self.0@[8],
    {
        self.0[8]
    }

    pub fn min(&self) -> (r: u8)
        requires
            Self::spec_validate(self.0@) is Ok,
        ensures
            r == self.0@[9],
    {
        self.0[9]
    }

    pub fn sec(&self) -> (r: u8)
        requires
            Self::spec_validate(self.0@) is Ok,
        ensures
            r == self.0@[10],
    {
        self.0[10]
    }

    /// Validity flags (raw bits).
    pub fn valid(&self) -> (r: u8)
        requires
            Self::spec_validate(self.0@) is Ok,
        ensures
            r == self.0@[11],
    {
        self.0[11]
    }

    /// Fraction of a second (ns).
    pub fn nanosec(&self) -> (r: i32)
        requires
            Self::spec_validate(self.0@) is Ok,
        ensures
            r == le_u32(self.0@, 12) as i32,
    {
        read_i32_le(self.0, 12)
    }

    /// GNSS fix type.
    pub fn fix_type_raw(&self) -> (r: u8)
        requires
            Self::spec_validate(self.0@) is Ok,
        ensures
            r == self.0@[16],
    {
        self.0[16]
    }

    /// GNSS fix type.
    pub fn fix_type(&self) -> (r: GnssFixType)
        requires
            Self::spec_validate(self.0@) is Ok,
        ensures
            r == GnssFixType::spec_from(self.0@[16]),
    {
        GnssFixType::from(self.0[16])
    }

    /// Raw bits.
    pub fn flags(&self) -> (r: u8)
        requires
            Self::spec_validate(self.0@) is Ok,
        ensures
            r == self.0@[17],
    {
        self.0[17]
    }

    pub fn reserved1(&self) -> (r: &[u8])
        requires
            Self::spec_validate(self.0@) is Ok,
        ensures
            r@ == self.0@.subrange(18, 20),
    {
        slice_subrange(self.0, 18, 20)
    }

    /// Longitude, in units of 1e-7 deg.
    pub fn lon_raw(&self) -> (r: i32)
        requires
            Self::spec_validate(self.0@) is Ok,
        ensures
            r == le_u32(self.0@, 20) as i32,
    {
        read_i32_le(self.0, 20)
    }

    /// Latitude, in units of 1e-7 deg.
    pub fn lat_raw(&self) -> (r: i32)
        requires
            Self::spec_validate(self.0@) is Ok,
        ensures
            r == le_u32(self.0@, 24) as i32,
    {
        read_i32_le(self.0, 24)
    }

    /// Height above ellipsoid (mm).
    pub fn height_raw(&self) -> (r: i32)
        requires
            Self::spec_validate(self.0@) is Ok,
        ensures
            r == le_u32(self.0@, 28) as i32,
    {
        read_i32_le(self.0, 28)
    }

    /// Height above mean sea level (mm).
    pub fn height_msl_raw(&self) -> (r: i32)
        requires
            Self::spec_validate(self.0@) is Ok,
        ensures
            r == le_u32(self.0@, 32) as i32,
    {
        read_i32_le(self.0, 32)
    }

    /// Ground speed (mm/s).
    pub fn g_speed_raw(&self) -> (r: i32)
        requires
            Self::spec_validate(self.0@) is Ok,
        ensures
            r == le_u32(self.0@, 36) as i32,
    {
        read_i32_le(self.0, 36)
    }

    /// Speed (mm/s).
    pub fn speed_raw(&self) -> (r: i32)
        requires
            Self::spec_validate(self.0@) is Ok,
        ensures
            r == le_u32(self.0@, 40) as i32,
    {
        read_i32_le(self.0, 40)
    }

    /// Heading of motion, in units of 1e-5 deg.
    pub fn head_motion_raw(&self) -> (r: i32)
        requires
            Self::spec_validate(self.0@) is Ok,
        ensures
            r == le_u32(self.0@, 44) as i32,
    {
        read_i32_le(self.0, 44)
    }

    /// Heading of vehicle, in units of 1e-5 deg.
    pub fn head_vehicle_raw(&self) -> (r: i32)
        requires
            Self::spec_validate(self.0@) is Ok,
        ensures
            r == le_u32(self.0@, 48) as i32,
    {
        read_i32_le(self.0, 48)
    }

    /// Horizontal accuracy (mm).
    pub fn h_acc_raw(&self) -> (r: u32)
        requires
            Self::spec_validate(self.0@) is Ok,
        ensures
            r == le_u32(self.0@, 52),
    {
        read_u32_le(self.0, 52)
    }

    /// Vertical accuracy (mm).
    pub fn v_acc_raw(&self) -> (r: u32)
        requires
            Self::spec_validate(self.0@) is Ok,
        ensures
            r == le_u32(self.0@, 56),
    {
        read_u32_le(self.0, 56)
    }

    /// Speed accuracy (mm/s).
    pub fn s_acc_raw(&self) -> (r: u32)
        requires
            Self::spec_validate(self.0@) is Ok,
        ensures
            r == le_u32(self.0@, 60),
    {
        read_u32_le(self.0, 60)
    }

    /// Heading accuracy, in units of 1e-5 deg.
    pub fn head_acc_raw(&self) -> (r: u32)
        requires
            Self::spec_validate(self.0@) is Ok,
        ensures
            r == le_u32(self.0@, 64),
    {
        read_u32_le(self.0, 64)
    }

    pub fn reserved2(&self) -> (r: &[u8])
        requires
            Self::spec_validate(self.0@) is Ok,
        ensures
            r@ == self.0@.subrange(68, 72),
    {
        slice_subrange(self.0, 68, 72)
    }

}

/// The class, message id and longest payload of each packet type of this
/// module.
pub proof fn lemma_packet_ids()
    ensures
        HnrPvt::CLASS == 0x28,
        HnrPvt::ID == 0x00,
        HnrPvt::MAX_PAYLOAD_LEN == 72,
{
}

} // verus!
