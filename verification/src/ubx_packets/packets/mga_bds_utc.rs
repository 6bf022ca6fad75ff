use vstd::prelude::*;

use crate::buffer::slice_subrange;
use crate::error::ParserError;
use crate::ubx_packets::bytes_le::{le_u32, read_i32_le};
use crate::ubx_packets::UbxPacketMeta;

verus! {

/// BeiDou UTC assistance.
pub struct MgaBdsUtc;

impl UbxPacketMeta for MgaBdsUtc {
    const CLASS: u8 = 0x13;
    const ID: u8 = 0x03;
    const MAX_PAYLOAD_LEN: u16 = 20;

    fn fixed_payload_len() -> (r: Option<u16>)
        ensures
            r == Some(20u16),
    {
        Some(20)
    }
}

/// Payload of a [MgaBdsUtc] packet.
pub struct MgaBdsUtcRef<'a>(pub &'a [u8]);

impl<'a> MgaBdsUtcRef<'a> {
    /// The outcome of validating a payload: its length, then each field
    /// that only allows some values.
    pub open spec fn spec_validate(payload: Seq<u8>) -> Result<(), ParserError> {
        if payload.len() != 20 {
            Err(ParserError::InvalidPacketLen { packet: "MgaBdsUtc", expect: 20, got: payload.len() as usize })
        }
        else {
            Ok(())
        }
    }

    /// Checks that `payload` is a valid [MgaBdsUtc] payload.
    pub fn validate(payload: &[u8]) -> (r: Result<(), ParserError>)
        ensures
            r == Self::spec_validate(payload@),
    {
        if payload.len() != 20 {
            return Err(ParserError::InvalidPacketLen { packet: "MgaBdsUtc", expect: 20, got: payload.len() });
        }
        Ok(())
    }

    /// Length of the payload.
    pub fn payload_len(&self) -> (r: usize)
        ensures
            r == self.0@.len(),
    {
        self.0.len()
    }

    /// Message type.
    pub fn msg_type(&self) -> (r: u8)
        requires
            Self::spec_validate(self.0@) is Ok,
        ensures
            r == self.0@[0],
    {
        self.0[0]
    }

    /// Message version.
    pub fn version(&self) -> (r: u8)
        requires
            Self::spec_validate(self.0@) is Ok,
        ensures
            r == self.0@[1],
    {
        self.0[1]
    }

    pub fn reserved1(&self) -> (r: &[u8])
        requires
            Self::spec_validate(self.0@) is Ok,
        ensures
            r@ == self.0@.subrange(2, 4),
    {
        slice_subrange(self.0, 2, 4)
    }

    /// BDT-UTC offset, in units of 2^-30 s.
    pub fn utc_a0_raw(&self) -> (r: i32)
        requires
            Self::spec_validate(self.0@) is Ok,
        ensures
            r == le_u32(self.0@, 4) as i32,
    {
        read_i32_le(self.0, 4)
    }

    /// BDT-UTC rate of change, in units of 2^-50 s/s.
    pub fn utc_a1_raw(&self) -> (r: i32)
        requires
            Self::spec_validate(self.0@) is Ok,
        ensures
            r == le_u32(self.0@, 8) as i32,
    {
        read_i32_le(self.0, 8)
    }

    /// Leap seconds before the new leap second is effective.
    pub fn dt_ls(&self) -> (r: i8)
        requires
            Self::spec_validate(self.0@) is Ok,
        ensures
            r == self.0@[12] as i8,
    {
        self.0[12] as i8
    }

    pub fn reserved2(&self) -> (r: u8)
        requires
            Self::spec_validate(self.0@) is Ok,
        ensures
            r == self.0@[13],
    {
        self.0[13]
    }

    /// BeiDou week number of reception (8-bit truncated).
    pub fn wn_rec(&self) -> (r: u8)
        requires
            Self::spec_validate(self.0@) is Ok,
        ensures
            r == self.0@[14],
    {
        self.0[14]
    }

    /// Week number of the new leap second.
    pub fn wn_lsf(&self) -> (r: u8)
        requires
            Self::spec_validate(self.0@) is Ok,
        ensures
            r == self.0@[15],
    {
        self.0[15]
    }

    /// Day number of the new leap second.
    pub fn dn(&self) -> (r: u8)
        requires
            Self::spec_validate(self.0@) is Ok,
        ensures
            r == self.0@[16],
    {
        self.0[16]
    }

    /// Leap seconds after the new leap second is effective.
    pub fn dt_lsf(&self) -> (r: i8)
        requires
            Self::spec_validate(self.0@) is Ok,
        ensures
            r == self.0@[17] as i8,
    {
        self.0[17] as i8
    }

    pub fn reserved3(&self) -> (r: &[u8])
        requires
            Self::spec_validate(self.0@) is Ok,
        ensures
            r@ == self.0@.subrange(18, 20),
    {
        slice_subrange(self.0, 18, 20)
    }

}

/// The class, message id and longest payload of each packet type of this
/// module.
pub proof fn lemma_packet_ids()
    ensures
        MgaBdsUtc::CLASS == 0x13,
        MgaBdsUtc::ID == 0x03,
        MgaBdsUtc::MAX_PAYLOAD_LEN == 20,
{
}

} // verus!
