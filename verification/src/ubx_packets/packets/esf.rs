use vstd::prelude::*;

use crate::buffer::slice_subrange;
use crate::error::ParserError;
use crate::ubx_packets::bytes_le::{le_u16, le_u32, read_i16_le, read_i32_le, read_u32_le};
use crate::ubx_packets::UbxPacketMeta;

verus! {

/// IMU alignment information.
pub struct EsfAlg;

impl UbxPacketMeta for EsfAlg {
    const CLASS: u8 = 0x10;
    const ID: u8 = 0x14;
    const MAX_PAYLOAD_LEN: u16 = 16;

    fn fixed_payload_len() -> (r: Option<u16>)
        ensures
            r == Some(16u16),
    {
        Some(16)
    }
}

/// Payload of a [EsfAlg] packet.
pub struct EsfAlgRef<'a>(pub &'a [u8]);

impl<'a> EsfAlgRef<'a> {
    /// The outcome of validating a payload: its length, then each field
    /// that only allows some values.
    pub open spec fn spec_validate(payload: Seq<u8>) -> Result<(), ParserError> {
        if payload.len() != 16 {
            Err(ParserError::InvalidPacketLen { packet: "EsfAlg", expect: 16, got: payload.len() as usize })
        }
        else {
            Ok(())
        }
    }

    /// Checks that `payload` is a valid [EsfAlg] payload.
    pub fn validate(payload: &[u8]) -> (r: Result<(), ParserError>)
        ensures
            r == Self::spec_validate(payload@),
    {
        if payload.len() != 16 {
            return Err(ParserError::InvalidPacketLen { packet: "EsfAlg", expect: 16, got: payload.len() });
        }
        Ok(())
    }

    /// Length of the payload.
    pub fn payload_len(&self) -> (r: usize)
        ensures
            r == self.0@.len(),
    {
        self.0.len()
    }

    pub fn itow(&self) -> (r: u32)
        requires
            Self::spec_validate(self.0@) is Ok,
        ensures
            r == le_u32(self.0@, 0),
    {
        read_u32_le(self.0, 0)
    }

    /// Message version.
    pub fn version(&self) -> (r: u8)
        requires
            Self::spec_validate(self.0@) is Ok,
        ensures
            r == self.0@[4],
    {
        self.0[4]
    }

    /// Raw flags.
    pub fn flags_raw(&self) -> (r: u8)
        requires
            Self::spec_validate(self.0@) is Ok,
        ensures
            r == self.0@[5],
    {
        self.0[5]
    }

    /// Error bits.
    pub fn error(&self) -> (r: u8)
        requires
            Self::spec_validate(self.0@) is Ok,
        ensures
            r == self.0@[6],
    {
        self.0[6]
    }

    pub fn reserved1(&self) -> (r: u8)
        requires
            Self::spec_validate(self.0@) is Ok,
        ensures
            r == self.0@[7],
    {
        self.0[7]
    }

    /// IMU mount yaw angle, in units of 0.01 deg.
    pub fn yaw_raw(&self) -> (r: u32)
        requires
            Self::spec_validate(self.0@) is Ok,
        ensures
            r == le_u32(self.0@, 8),
    {
        read_u32_le(self.0, 8)
    }

    /// IMU mount pitch angle, in units of 0.01 deg.
    pub fn pitch_raw(&self) -> (r: i16)
        requires
            Self::spec_validate(self.0@) is Ok,
        ensures
            r == le_u16(self.0@, 12) as i16,
    {
        read_i16_le(self.0, 12)
    }

    /// IMU mount roll angle, in units of 0.01 deg.
    pub fn roll_raw(&self) -> (r: i16)
        requires
            Self::spec_validate(self.0@) is Ok,
        ensures
            r == le_u16(self.0@, 14) as i16,
    {
        read_i16_le(self.0, 14)
    }

}

/// Vehicle dynamics information.
pub struct EsfIns;

impl UbxPacketMeta for EsfIns {
    const CLASS: u8 = 0x10;
    const ID: u8 = 0x15;
    const MAX_PAYLOAD_LEN: u16 = 36;

    fn fixed_payload_len() -> (r: Option<u16>)
        ensures
            r == Some(36u16),
    {
        Some(36)
    }
}

/// Payload of a [EsfIns] packet.
pub struct EsfInsRef<'a>(pub &'a [u8]);

impl<'a> EsfInsRef<'a> {
    /// The outcome of validating a payload: its length, then each field
    /// that only allows some values.
    pub open spec fn spec_validate(payload: Seq<u8>) -> Result<(), ParserError> {
        if payload.len() != 36 {
            Err(ParserError::InvalidPacketLen { packet: "EsfIns", expect: 36, got: payload.len() as usize })
        }
        else {
            Ok(())
        }
    }

    /// Checks that `payload` is a valid [EsfIns] payload.
    pub fn validate(payload: &[u8]) -> (r: Result<(), ParserError>)
        ensures
            r == Self::spec_validate(payload@),
    {
        if payload.len() != 36 {
            return Err(ParserError::InvalidPacketLen { packet: "EsfIns", expect: 36, got: payload.len() });
        }
        Ok(())
    }

    /// Length of the payload.
    pub fn payload_len(&self) -> (r: usize)
        ensures
            r == self.0@.len(),
    {
        self.0.len()
    }

    /// Validity bits.
    pub fn bit_field(&self) -> (r: u32)
        requires
            Self::spec_validate(self.0@) is Ok,
        ensures
            r == le_u32(self.0@, 0),
    {
        read_u32_le(self.0, 0)
    }

    pub fn reserved(&self) -> (r: &[u8])
        requires
            Self::spec_validate(self.0@) is Ok,
        ensures
            r@ == self.0@.subrange(4, 8),
    {
        slice_subrange(self.0, 4, 8)
    }

    pub fn itow(&self) -> (r: u32)
        requires
            Self::spec_validate(self.0@) is Ok,
        ensures
            r == le_u32(self.0@, 8),
    {
        read_u32_le(self.0, 8)
    }

    /// In units of 1e-3 deg/s.
    pub fn x_ang_rate_raw(&self) -> (r: i32)
        requires
            Self::spec_validate(self.0@) is Ok,
        ensures
            r == le_u32(self.0@, 12) as i32,
    {
        read_i32_le(self.0, 12)
    }

    /// In units of 1e-3 deg/s.
    pub fn y_ang_rate_raw(&self) -> (r: i32)
        requires
            Self::spec_validate(self.0@) is Ok,
        ensures
            r == le_u32(self.0@, 16) as i32,
    {
        read_i32_le(self.0, 16)
    }

    /// In units of 1e-3 deg/s.
    pub fn z_ang_rate_raw(&self) -> (r: i32)
        requires
            Self::spec_validate(self.0@) is Ok,
        ensures
            r == le_u32(self.0@, 20) as i32,
    {
        read_i32_le(self.0, 20)
    }

    /// In units of 1e-2 m/s^2.
    pub fn x_accel_raw(&self) -> (r: i32)
        requires
            Self::spec_validate(self.0@) is Ok,
        ensures
            r == le_u32(self.0@, 24) as i32,
    {
        read_i32_le(self.0, 24)
    }

    /// In units of 1e-2 m/s^2.
    pub fn y_accel_raw(&self) -> (r: i32)
        requires
            Self::spec_validate(self.0@) is Ok,
        ensures
            r == le_u32(self.0@, 28) as i32,
    {
        read_i32_le(self.0, 28)
    }

    /// In units of 1e-2 m/s^2.
    pub fn z_accel_raw(&self) -> (r: i32)
        requires
            Self::spec_validate(self.0@) is Ok,
        ensures
            r == le_u32(self.0@, 32) as i32,
    {
        read_i32_le(self.0, 32)
    }

}

/// The class, message id and longest payload of each packet type of this
/// module.
pub proof fn lemma_packet_ids()
    ensures
        EsfAlg::CLASS == 0x10,
        EsfAlg::ID == 0x14,
        EsfAlg::MAX_PAYLOAD_LEN == 16,
        EsfIns::CLASS == 0x10,
        EsfIns::ID == 0x15,
        EsfIns::MAX_PAYLOAD_LEN == 36,
{
}

} // verus!
