use vstd::prelude::*;

use crate::buffer::slice_subrange;
use crate::error::ParserError;
use crate::ubx_packets::bytes_le::{le_u32, read_i32_le, read_u32_le};
use crate::ubx_packets::UbxPacketMeta;

verus! {

/// Attitude solution at high rate.
pub struct HnrAtt;

impl UbxPacketMeta for HnrAtt {
    const CLASS: u8 = 0x28;
    const ID: u8 = 0x01;
    const MAX_PAYLOAD_LEN: u16 = 32;

    fn fixed_payload_len() -> (r: Option<u16>)
        ensures
            r == Some(32u16),
    {
        Some(32)
    }
}

/// Payload of a [HnrAtt] packet.
pub struct HnrAttRef<'a>(pub &'a [u8]);

impl<'a> HnrAttRef<'a> {
    /// The outcome of validating a payload: its length, then each field
    /// that only allows some values.
    pub open spec fn spec_validate(payload: Seq<u8>) -> Result<(), ParserError> {
        if payload.len() != 32 {
            Err(ParserError::InvalidPacketLen { packet: "HnrAtt", expect: 32, got: payload.len() as usize })
        }
        else {
            Ok(())
        }
    }

    /// Checks that `payload` is a valid [HnrAtt] payload.
    pub fn validate(payload: &[u8]) -> (r: Result<(), ParserError>)
        ensures
            r == Self::spec_validate(payload@),
    {
        if payload.len() != 32 {
            return Err(ParserError::InvalidPacketLen { packet: "HnrAtt", expect: 32, got: payload.len() });
        }
        Ok(())
    }

    /// Length of the payload.
    pub fn payload_len(&self) -> (r: usize)
        ensures
            r == self.0@.len(),
    {
        self.0.len()
    }

    pub fn itow(&self) -> (r: u32)
        requires
            Self::spec_validate(self.0@) is Ok,
        ensures
            r == le_u32(self.0@, 0),
    {
        read_u32_le(self.0, 0)
    }

    pub fn version(&self) -> (r: u8)
        requires
            Self::spec_validate(self.0@) is Ok,
        ensures
            r == self.0@[4],
    {
        self.0[4]
    }

    pub fn reserved1(&self) -> (r: &[u8])
        requires
            Self::spec_validate(self.0@) is Ok,
        ensures
            r@ == self.0@.subrange(5, 8),
    {
        slice_subrange(self.0, 5, 8)
    }

    /// In units of 1e-5 deg.
    pub fn roll_raw(&self) -> (r: i32)
        requires
            Self::spec_validate(self.0@) is Ok,
        ensures
            r == le_u32(self.0@, 8) as i32,
    {
        read_i32_le(self.0, 8)
    }

    /// In units of 1e-5 deg.
    pub fn pitch_raw(&self) -> (r: i32)
        requires
            Self::spec_validate(self.0@) is Ok,
        ensures
            r == le_u32(self.0@, 12) as i32,
    {
        read_i32_le(self.0, 12)
    }

    /// In units of 1e-5 deg.
    pub fn heading_raw(&self) -> (r: i32)
        requires
            Self::spec_validate(self.0@) is Ok,
        ensures
            r == le_u32(self.0@, 16) as i32,
    {
        read_i32_le(self.0, 16)
    }

    /// In units of 1e-5 deg.
    pub fn acc_roll_raw(&self) -> (r: u32)
        requires
            Self::spec_validate(self.0@) is Ok,
        ensures
            r == le_u32(self.0@, 20),
    {
        read_u32_le(self.0, 20)
    }

    /// In units of 1e-5 deg.
    pub fn acc_pitch_raw(&self) -> (r: u32)
        requires
            Self::spec_validate(self.0@) is Ok,
        ensures
            r == le_u32(self.0@, 24),
    {
        read_u32_le(self.0, 24)
    }

    /// In units of 1e-5 deg.
    pub fn acc_heading_raw(&self) -> (r: u32)
        requires
            Self::spec_validate(self.0@) is Ok,
        ensures
            r == le_u32(self.0@, 28),
    {
        read_u32_le(self.0, 28)
    }

}

/// Vehicle dynamics information at high rate.
pub struct HnrIns;

impl UbxPacketMeta for HnrIns {
    const CLASS: u8 = 0x28;
    const ID: u8 = 0x02;
    const MAX_PAYLOAD_LEN: u16 = 36;

    fn fixed_payload_len() -> (r: Option<u16>)
        ensures
            r == Some(36u16),
    {
        Some(36)
    }
}

/// Payload of a [HnrIns] packet.
pub struct HnrInsRef<'a>(pub &'a [u8]);

impl<'a> HnrInsRef<'a> {
    /// The outcome of validating a payload: its length, then each field
    /// that only allows some values.
    pub open spec fn spec_validate(payload: Seq<u8>) -> Result<(), ParserError> {
        if payload.len() != 36 {
            Err(ParserError::InvalidPacketLen { packet: "HnrIns", expect: 36, got: payload.len() as usize })
        }
        else {
            Ok(())
        }
    }

    /// Checks that `payload` is a valid [HnrIns] payload.
    pub fn validate(payload: &[u8]) -> (r: Result<(), ParserError>)
        ensures
            r == Self::spec_validate(payload@),
    {
        if payload.len() != 36 {
            return Err(ParserError::InvalidPacketLen { packet: "HnrIns", expect: 36, got: payload.len() });
        }
        Ok(())
    }

    /// Length of the payload.
    pub fn payload_len(&self) -> (r: usize)
        ensures
            r == self.0@.len(),
    {
        self.0.len()
    }

    /// Validity bits.
    pub fn bit_field(&self) -> (r: u32)
        requires
            Self::spec_validate(self.0@) is Ok,
        ensures
            r == le_u32(self.0@, 0),
    {
        read_u32_le(self.0, 0)
    }

    pub fn reserved(&self) -> (r: &[u8])
        requires
            Self::spec_validate(self.0@) is Ok,
        ensures
            r@ == self.0@.subrange(4, 8),
    {
        slice_subrange(self.0, 4, 8)
    }

    pub fn itow(&self) -> (r: u32)
        requires
            Self::spec_validate(self.0@) is Ok,
        ensures
            r == le_u32(self.0@, 8),
    {
        read_u32_le(self.0, 8)
    }

    /// In units of 1e-3 deg/s.
    pub fn x_ang_rate_raw(&self) -> (r: i32)
        requires
            Self::spec_validate(self.0@) is Ok,
        ensures
            r == le_u32(self.0@, 12) as i32,
    {
        read_i32_le(self.0, 12)
    }

    /// In units of 1e-3 deg/s.
    pub fn y_ang_rate_raw(&self) -> (r: i32)
        requires
            Self::spec_validate(self.0@) is Ok,
        ensures
            r == le_u32(self.0@, 16) as i32,
    {
        read_i32_le(self.0, 16)
    }

    /// In units of 1e-3 deg/s.
    pub fn z_ang_rate_raw(&self) -> (r: i32)
        requires
            Self::spec_validate(self.0@) is Ok,
        ensures
            r == le_u32(self.0@, 20) as i32,
    {
        read_i32_le(self.0, 20)
    }

    /// In units of 1e-2 m/s^2.
    pub fn x_accel_raw(&self) -> (r: i32)
        requires
            Self::spec_validate(self.0@) is Ok,
        ensures
            r == le_u32(self.0@, 24) as i32,
    {
        read_i32_le(self.0, 24)
    }

    /// In units of 1e-2 m/s^2.
    pub fn y_accel_raw(&self) -> (r: i32)
        requires
            Self::spec_validate(self.0@) is Ok,
        ensures
            r == le_u32(self.0@, 28) as i32,
    {
        read_i32_le(self.0, 28)
    }

    /// In units of 1e-2 m/s^2.
    pub fn z_accel_raw(&self) -> (r: i32)
        requires
            Self::spec_validate(self.0@) is Ok,
        ensures
            r == le_u32(self.0@, 32) as i32,
    {
        read_i32_le(self.0, 32)
    }

}

/// The class, message id and longest payload of each packet type of this
/// module.
pub proof fn lemma_packet_ids()
    ensures
        HnrAtt::CLASS == 0x28,
        HnrAtt::ID == 0x01,
        HnrAtt::MAX_PAYLOAD_LEN == 32,
        HnrIns::CLASS == 0x28,
        HnrIns::ID == 0x02,
        HnrIns::MAX_PAYLOAD_LEN == 36,
{
}

} // verus!
