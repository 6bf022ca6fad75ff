use vstd::prelude::*;

use crate::error::ParserError;
use crate::ubx_packets::bytes_le::{le_u16, le_u32, read_i32_le, read_u16_le, read_u32_le};
use crate::ubx_packets::packets::enums::GpsFix;
use crate::ubx_packets::UbxPacketMeta;

verus! {

/// Navigation position velocity time solution. Its payload is 84 bytes long
/// in protocol 14 and 92 bytes long in later protocols.
pub struct NavPvt;

impl UbxPacketMeta for NavPvt {
    const CLASS: u8 = 0x01;
    const ID: u8 = 0x07;
    const MAX_PAYLOAD_LEN: u16 = 92;

    fn fixed_payload_len() -> (r: Option<u16>)
        ensures
            r is None,
    {
        None
    }
}

/// Payload of a [NavPvt] packet.
pub struct NavPvtRef<'a>(pub &'a [u8]);

impl<'a> NavPvtRef<'a> {
    /// The outcome of validating a payload that must be `expect` bytes long.
    pub open spec fn spec_validate(payload: Seq<u8>, expect: usize) -> Result<(), ParserError> {
        if payload.len() != expect {
            Err(ParserError::InvalidPacketLen { packet: "NavPvt", expect: expect, got: payload.len() as usize })
        } else {
            Ok(())
        }
    }

    /// Checks that `payload` is `expect` bytes long.
    pub fn validate(payload: &[u8], expect: usize) -> (r: Result<(), ParserError>)
        ensures
            r == Self::spec_validate(payload@, expect),
    {
        if payload.len() != expect {
            Err(ParserError::InvalidPacketLen { packet: "NavPvt", expect, got: payload.len() })
        } else {
            Ok(())
        }
    }

    /// A payload long enough for every field of this view.
    pub open spec fn spec_complete(&self) -> bool {
        self.0@.len() >= 84
    }

    /// Length of the payload.
    pub fn payload_len(&self) -> (r: usize)
        ensures
            r == self.0@.len(),
    {
        self.0.len()
    }

    /// GPS time of week of the navigation epoch (ms).
    pub fn itow(&self) -> (r: u32)
        requires
            self.spec_complete(),
        ensures
            r == le_u32(self.0@, 0),
    {
        read_u32_le(self.0, 0)
    }

    /// Year (UTC).
    pub fn year(&self) -> (r: u16)
        requires
            self.spec_complete(),
        ensures
            r == le_u16(self.0@, 4),
    {
        read_u16_le(self.0, 4)
    }

    /// Month, range 1..12 (UTC).
    pub fn month(&self) -> (r: u8)
        requires
            self.spec_complete(),
        ensures
            r == self.0@[6],
    {
        self.0[6]
    }

    /// Day of month, range 1..31 (UTC).
    pub fn day(&self) -> (r: u8)
        requires
            self.spec_complete(),
        ensures
            r == self.0@[7],
    {
        self.0[7]
    }

    /// Hour of day, range 0..23 (UTC).
    pub fn hour(&self) -> (r: u8)
        requires
            self.spec_complete(),
        ensures
            r == self.0@[8],
    {
        self.0[8]
    }

    /// Minute of hour, range 0..59 (UTC).
    pub fn min(&self) -> (r: u8)
        requires
            self.spec_complete(),
        ensures
            r == self.0@[9],
    {
        self.0[9]
    }

    /// Seconds of minute, range 0..60 (UTC).
    pub fn sec(&self) -> (r: u8)
        requires
            self.spec_complete(),
        ensures
            r == self.0@[10],
    {
        self.0[10]
    }

    /// Validity flags.
    pub fn valid(&self) -> (r: u8)
        requires
            self.spec_complete(),
        ensures
            r == self.0@[11],
    {
        self.0[11]
    }

    /// Time accuracy estimate (ns).
    pub fn time_accuracy(&self) -> (r: u32)
        requires
            self.spec_complete(),
        ensures
            r == le_u32(self.0@, 12),
    {
        read_u32_le(self.0, 12)
    }

    /// Fraction of second, range -1e9..1e9 (ns).
    pub fn nanosecond(&self) -> (r: i32)
        requires
            self.spec_complete(),
        ensures
            r == le_u32(self.0@, 16) as i32,
    {
        read_i32_le(self.0, 16)
    }

    /// GNSS fix type.
    pub fn fix_type(&self) -> (r: GpsFix)
        requires
            self.spec_complete(),
        ensures
            r == GpsFix::spec_from(self.0@[20]),
    {
        GpsFix::from(self.0[20])
    }

    /// Fix status flags.
    pub fn flags(&self) -> (r: u8)
        requires
            self.spec_complete(),
        ensures
            r == self.0@[21],
    {
        self.0[21]
    }

    /// Additional flags.
    pub fn flags2(&self) -> (r: u8)
        requires
            self.spec_complete(),
        ensures
            r == self.0@[22],
    {
        self.0[22]
    }

    /// Number of satellites used in the navigation solution.
    pub fn num_satellites(&self) -> (r: u8)
        requires
            self.spec_complete(),
        ensures
            r == self.0@[23],
    {
        self.0[23]
    }

    /// Longitude, in units of 1e-7 deg.
    pub fn lon_raw(&self) -> (r: i32)
        requires
            self.spec_complete(),
        ensures
            r == le_u32(self.0@, 24) as i32,
    {
        read_i32_le(self.0, 24)
    }

    /// Latitude, in units of 1e-7 deg.
    pub fn lat_raw(&self) -> (r: i32)
        requires
            self.spec_complete(),
        ensures
            r == le_u32(self.0@, 28) as i32,
    {
        read_i32_le(self.0, 28)
    }

    /// Height above ellipsoid (mm).
    pub fn height_above_ellipsoid_raw(&self) -> (r: i32)
        requires
            self.spec_complete(),
        ensures
            r == le_u32(self.0@, 32) as i32,
    {
        read_i32_le(self.0, 32)
    }

    /// Height above mean sea level (mm).
    pub fn height_msl_raw(&self) -> (r: i32)
        requires
            self.spec_complete(),
        ensures
            r == le_u32(self.0@, 36) as i32,
    {
        read_i32_le(self.0, 36)
    }

    /// Horizontal accuracy estimate (mm).
    pub fn horiz_accuracy_raw(&self) -> (r: u32)
        requires
            self.spec_complete(),
        ensures
            r == le_u32(self.0@, 40),
    {
        read_u32_le(self.0, 40)
    }

    /// Vertical accuracy estimate (mm).
    pub fn vert_accuracy_raw(&self) -> (r: u32)
        requires
            self.spec_complete(),
        ensures
            r == le_u32(self.0@, 44),
    {
        read_u32_le(self.0, 44)
    }

    /// NED north velocity (mm/s).
    pub fn vel_north_raw(&self) -> (r: i32)
        requires
            self.spec_complete(),
        ensures
            r == le_u32(self.0@, 48) as i32,
    {
        read_i32_le(self.0, 48)
    }

    /// NED east velocity (mm/s).
    pub fn vel_east_raw(&self) -> (r: i32)
        requires
            self.spec_complete(),
        ensures
            r == le_u32(self.0@, 52) as i32,
    {
        read_i32_le(self.0, 52)
    }

    /// NED down velocity (mm/s).
    pub fn vel_down_raw(&self) -> (r: i32)
        requires
            self.spec_complete(),
        ensures
            r == le_u32(self.0@, 56) as i32,
    {
        read_i32_le(self.0, 56)
    }

    /// Ground speed, 2-D (mm/s).
    pub fn ground_speed_2d_raw(&self) -> (r: i32)
        requires
            self.spec_complete(),
        ensures
            r == le_u32(self.0@, 60) as i32,
    {
        read_i32_le(self.0, 60)
    }

    /// Heading of motion, 2-D, in units of 1e-5 deg.
    pub fn heading_motion_raw(&self) -> (r: i32)
        requires
            self.spec_complete(),
        ensures
            r == le_u32(self.0@, 64) as i32,
    {
        read_i32_le(self.0, 64)
    }

    /// Speed accuracy estimate (mm/s).
    pub fn speed_accuracy_raw(&self) -> (r: u32)
        requires
            self.spec_complete(),
        ensures
            r == le_u32(self.0@, 68),
    {
        read_u32_le(self.0, 68)
    }

    /// Heading accuracy estimate, in units of 1e-5 deg.
    pub fn heading_accuracy_raw(&self) -> (r: u32)
        requires
            self.spec_complete(),
        ensures
            r == le_u32(self.0@, 72),
    {
        read_u32_le(self.0, 72)
    }

    /// Position DOP, in units of 0.01.
    pub fn pdop_raw(&self) -> (r: u16)
        requires
            self.spec_complete(),
        ensures
            r == le_u16(self.0@, 76),
    {
        read_u16_le(self.0, 76)
    }
}

/// The class, message id and longest payload of each packet type of this
/// module.
pub proof fn lemma_packet_ids()
    ensures
        NavPvt::CLASS == 0x01,
        NavPvt::ID == 0x07,
        NavPvt::MAX_PAYLOAD_LEN == 92,
{
}

} // verus!
