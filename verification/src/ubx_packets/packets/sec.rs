use vstd::prelude::*;

use crate::buffer::slice_subrange;
use crate::error::ParserError;
use crate::ubx_packets::bytes_le::{le_u16, le_u32, read_u16_le, read_u32_le};
use crate::ubx_packets::UbxPacketMeta;

verus! {

/// Unique chip identifier.
pub struct SecUniqId;

impl UbxPacketMeta for SecUniqId {
    const CLASS: u8 = 0x27;
    const ID: u8 = 0x03;
    const MAX_PAYLOAD_LEN: u16 = 9;

    fn fixed_payload_len() -> (r: Option<u16>)
        ensures
            r == Some(9u16),
    {
        Some(9)
    }
}

/// Payload of a [SecUniqId] packet.
pub struct SecUniqIdRef<'a>(pub &'a [u8]);

impl<'a> SecUniqIdRef<'a> {
    /// The outcome of validating a payload: its length, then each field
    /// that only allows some values.
    pub open spec fn spec_validate(payload: Seq<u8>) -> Result<(), ParserError> {
        if payload.len() != 9 {
            Err(ParserError::InvalidPacketLen { packet: "SecUniqId", expect: 9, got: payload.len() as usize })
        }
        else {
            Ok(())
        }
    }

    /// Checks that `payload` is a valid [SecUniqId] payload.
    pub fn validate(payload: &[u8]) -> (r: Result<(), ParserError>)
        ensures
            r == Self::spec_validate(payload@),
    {
        if payload.len() != 9 {
            return Err(ParserError::InvalidPacketLen { packet: "SecUniqId", expect: 9, got: payload.len() });
        }
        Ok(())
    }

    /// Length of the payload.
    pub fn payload_len(&self) -> (r: usize)
        ensures
            r == self.0@.len(),
    {
        self.0.len()
    }

    pub fn version(&self) -> (r: u8)
        requires
            Self::spec_validate(self.0@) is Ok,
        ensures
            r == self.0@[0],
    {
        self.0[0]
    }

    pub fn reserved1(&self) -> (r: &[u8])
        requires
            Self::spec_validate(self.0@) is Ok,
        ensures
            r@ == self.0@.subrange(1, 4),
    {
        slice_subrange(self.0, 1, 4)
    }

    /// Unique chip identifier.
    pub fn unique_id(&self) -> (r: &[u8])
        requires
            Self::spec_validate(self.0@) is Ok,
        ensures
            r@ == self.0@.subrange(4, 9),
    {
        slice_subrange(self.0, 4, 9)
    }

}

/// AlmanacPlus data request from the receiver.
pub struct AlpSrv;

impl UbxPacketMeta for AlpSrv {
    const CLASS: u8 = 0x0B;
    const ID: u8 = 0x32;
    const MAX_PAYLOAD_LEN: u16 = 16;

    fn fixed_payload_len() -> (r: Option<u16>)
        ensures
            r == Some(16u16),
    {
        Some(16)
    }
}

/// Payload of a [AlpSrv] packet.
pub struct AlpSrvRef<'a>(pub &'a [u8]);

impl<'a> AlpSrvRef<'a> {
    /// The outcome of validating a payload: its length, then each field
    /// that only allows some values.
    pub open spec fn spec_validate(payload: Seq<u8>) -> Result<(), ParserError> {
        if payload.len() != 16 {
            Err(ParserError::InvalidPacketLen { packet: "AlpSrv", expect: 16, got: payload.len() as usize })
        }
        else {
            Ok(())
        }
    }

    /// Checks that `payload` is a valid [AlpSrv] payload.
    pub fn validate(payload: &[u8]) -> (r: Result<(), ParserError>)
        ensures
            r == Self::spec_validate(payload@),
    {
        if payload.len() != 16 {
            return Err(ParserError::InvalidPacketLen { packet: "AlpSrv", expect: 16, got: payload.len() });
        }
        Ok(())
    }

    /// Length of the payload.
    pub fn payload_len(&self) -> (r: usize)
        ensures
            r == self.0@.len(),
    {
        self.0.len()
    }

    pub fn id_size(&self) -> (r: u8)
        requires
            Self::spec_validate(self.0@) is Ok,
        ensures
            r == self.0@[0],
    {
        self.0[0]
    }

    pub fn data_type(&self) -> (r: u8)
        requires
            Self::spec_validate(self.0@) is Ok,
        ensures
            r == self.0@[1],
    {
        self.0[1]
    }

    pub fn offset(&self) -> (r: u16)
        requires
            Self::spec_validate(self.0@) is Ok,
        ensures
            r == le_u16(self.0@, 2),
    {
        read_u16_le(self.0, 2)
    }

    pub fn size(&self) -> (r: u16)
        requires
            Self::spec_validate(self.0@) is Ok,
        ensures
            r == le_u16(self.0@, 4),
    {
        read_u16_le(self.0, 4)
    }

    pub fn file_id(&self) -> (r: u16)
        requires
            Self::spec_validate(self.0@) is Ok,
        ensures
            r == le_u16(self.0@, 6),
    {
        read_u16_le(self.0, 6)
    }

    pub fn data_size(&self) -> (r: u16)
        requires
            Self::spec_validate(self.0@) is Ok,
        ensures
            r == le_u16(self.0@, 8),
    {
        read_u16_le(self.0, 8)
    }

    pub fn id1(&self) -> (r: u8)
        requires
            Self::spec_validate(self.0@) is Ok,
        ensures
            r == self.0@[10],
    {
        self.0[10]
    }

    pub fn id2(&self) -> (r: u8)
        requires
            Self::spec_validate(self.0@) is Ok,
        ensures
            r == self.0@[11],
    {
        self.0[11]
    }

    pub fn id3(&self) -> (r: u32)
        requires
            Self::spec_validate(self.0@) is Ok,
        ensures
            r == le_u32(self.0@, 12),
    {
        read_u32_le(self.0, 12)
    }

}

/// The class, message id and longest payload of each packet type of this
/// module.
pub proof fn lemma_packet_ids()
    ensures
        SecUniqId::CLASS == 0x27,
        SecUniqId::ID == 0x03,
        SecUniqId::MAX_PAYLOAD_LEN == 9,
        AlpSrv::CLASS == 0x0B,
        AlpSrv::ID == 0x32,
        AlpSrv::MAX_PAYLOAD_LEN == 16,
{
}

} // verus!
