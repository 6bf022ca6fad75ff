use vstd::prelude::*;

use crate::error::ParserError;
use crate::ubx_packets::bytes_le::{le_u32, read_i32_le, read_u32_le};
use crate::ubx_packets::UbxPacketMeta;

verus! {

/// Geodetic position solution.
pub struct NavPosLlh;

impl UbxPacketMeta for NavPosLlh {
    const CLASS: u8 = 0x01;
    const ID: u8 = 0x02;
    const MAX_PAYLOAD_LEN: u16 = 28;

    fn fixed_payload_len() -> (r: Option<u16>)
        ensures
            r == Some(28u16),
    {
        Some(28)
    }
}

/// Payload of a [NavPosLlh] packet.
pub struct NavPosLlhRef<'a>(pub &'a [u8]);

impl<'a> NavPosLlhRef<'a> {
    /// The outcome of validating a payload: its length, then each field
    /// that only allows some values.
    pub open spec fn spec_validate(payload: Seq<u8>) -> Result<(), ParserError> {
        if payload.len() != 28 {
            Err(ParserError::InvalidPacketLen { packet: "NavPosLlh", expect: 28, got: payload.len() as usize })
        }
        else {
            Ok(())
        }
    }

    /// Checks that `payload` is a valid [NavPosLlh] payload.
    pub fn validate(payload: &[u8]) -> (r: Result<(), ParserError>)
        ensures
            r == Self::spec_validate(payload@),
    {
        if payload.len() != 28 {
            return Err(ParserError::InvalidPacketLen { packet: "NavPosLlh", expect: 28, got: payload.len() });
        }
        Ok(())
    }

    /// Length of the payload.
    pub fn payload_len(&self) -> (r: usize)
        ensures
            r == self.0@.len(),
    {
        self.0.len()
    }

    /// GPS time of week of the navigation epoch (ms).
    pub fn itow(&self) -> (r: u32)
        requires
            Self::spec_validate(self.0@) is Ok,
        ensures
            r == le_u32(self.0@, 0),
    {
        read_u32_le(self.0, 0)
    }

    /// Longitude, in units of 1e-7 deg.
    pub fn lon_raw(&self) -> (r: i32)
        requires
            Self::spec_validate(self.0@) is Ok,
        ensures
            r == le_u32(self.0@, 4) as i32,
    {
        read_i32_le(self.0, 4)
    }

    /// Latitude, in units of 1e-7 deg.
    pub fn lat_raw(&self) -> (r: i32)
        requires
            Self::spec_validate(self.0@) is Ok,
        ensures
            r == le_u32(self.0@, 8) as i32,
    {
        read_i32_le(self.0, 8)
    }

    /// Height above ellipsoid (mm).
    pub fn height_meters_raw(&self) -> (r: i32)
        requires
            Self::spec_validate(self.0@) is Ok,
        ensures
            r == le_u32(self.0@, 12) as i32,
    {
        read_i32_le(self.0, 12)
    }

    /// Height above mean sea level (mm).
    pub fn height_msl_raw(&self) -> (r: i32)
        requires
            Self::spec_validate(self.0@) is Ok,
        ensures
            r == le_u32(self.0@, 16) as i32,
    {
        read_i32_le(self.0, 16)
    }

    /// Horizontal accuracy estimate (mm).
    pub fn h_ack_raw(&self) -> (r: u32)
        requires
            Self::spec_validate(self.0@) is Ok,
        ensures
            r == le_u32(self.0@, 20),
    {
        read_u32_le(self.0, 20)
    }

    /// Vertical accuracy estimate (mm).
    pub fn v_acc_raw(&self) -> (r: u32)
        requires
            Self::spec_validate(self.0@) is Ok,
        ensures
            r == le_u32(self.0@, 24),
    {
        read_u32_le(self.0, 24)
    }

}

/// The class, message id and longest payload of each packet type of this
/// module.
pub proof fn lemma_packet_ids()
    ensures
        NavPosLlh::CLASS == 0x01,
        NavPosLlh::ID == 0x02,
        NavPosLlh::MAX_PAYLOAD_LEN == 28,
{
}

} // verus!
