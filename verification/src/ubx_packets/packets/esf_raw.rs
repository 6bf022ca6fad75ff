//! ESF-RAW: raw sensor measurements.

use vstd::prelude::*;

use crate::error::ParserError;
use crate::ubx_packets::bytes_le::{le_u32, read_u32_le};
use crate::ubx_packets::UbxPacketMeta;

verus! {

/// Raw sensor measurements: a 4-byte header followed by one 8-byte block
/// per measurement.
pub struct EsfRaw;

impl UbxPacketMeta for EsfRaw {
    const CLASS: u8 = 0x10;
    const ID: u8 = 0x03;
    const MAX_PAYLOAD_LEN: u16 = 1240;

    fn fixed_payload_len() -> (r: Option<u16>)
        ensures
            r is None,
    {
        None
    }
}

/// Payload of an [EsfRaw] packet.
pub struct EsfRawRef<'a>(pub &'a [u8]);

impl<'a> EsfRawRef<'a> {
    /// The outcome of validating a payload.
    pub open spec fn spec_validate(payload: Seq<u8>) -> Result<(), ParserError> {
        if payload.len() < 4 {
            Err(ParserError::InvalidPacketLen { packet: "EsfRaw", expect: 4, got: payload.len() as usize })
        } else if (payload.len() - 4) % 8 != 0 {
            Err(ParserError::InvalidField { packet: "EsfRaw", field: "data" })
        } else {
            Ok(())
        }
    }

    /// Checks that `payload` is a valid [EsfRaw] payload.
    pub fn validate(payload: &[u8]) -> (r: Result<(), ParserError>)
        ensures
            r == Self::spec_validate(payload@),
    {
        if payload.len() < 4 {
            Err(ParserError::InvalidPacketLen { packet: "EsfRaw", expect: 4, got: payload.len() })
        } else if !EsfRawDataIter::is_valid(crate::buffer::slice_subrange(payload, 4, payload.len())) {
            Err(ParserError::InvalidField { packet: "EsfRaw", field: "data" })
        } else {
            Ok(())
        }
    }

    /// Length of the payload.
    pub fn payload_len(&self) -> (r: usize)
        ensures
            r == self.0@.len(),
    {
        self.0.len()
    }

    /// Time tag of the message (ms since startup).
    pub fn msss(&self) -> (r: u32)
        requires
            Self::spec_validate(self.0@) is Ok,
        ensures
            r == le_u32(self.0@, 0),
    {
        read_u32_le(self.0, 0)
    }

    /// The measurement blocks.
    pub fn data(&self) -> (r: EsfRawDataIter<'a>)
        requires
            Self::spec_validate(self.0@) is Ok,
        ensures
            r.data@ == self.0@.skip(4),
            r.offset == 0,
    {
        EsfRawDataIter::new(crate::buffer::slice_subrange(self.0, 4, self.0.len()))
    }
}

/// One raw measurement.
#[derive(Debug, Copy, Clone, PartialEq, Eq, Structural)]
pub struct EsfRawData {
    /// Kind of the measurement (the high byte of the data word).
    pub data_type: u8,
    /// The 24 low bits of the data word.
    pub data_field: u32,
    /// Sensor time tag.
    pub sensor_time_tag: u32,
}

/// Iterator over the 8-byte measurement blocks of an [EsfRaw] payload.
#[derive(Debug, Clone)]
pub struct EsfRawDataIter<'a> {
    pub data: &'a [u8],
    pub offset: usize,
}

impl<'a> EsfRawDataIter<'a> {
    /// An iterator over the blocks in `bytes`.
    fn new(bytes: &'a [u8]) -> (r: Self)
        ensures
            r.data == bytes,
            r.offset == 0,
    {
        Self { data: bytes, offset: 0 }
    }

    /// Whether `bytes` is a whole number of blocks.
    fn is_valid(bytes: &'a [u8]) -> (r: bool)
        ensures
            r == (bytes@.len() % 8 == 0),
    {
        bytes.len() % 8 == 0
    }

    /// The next measurement, or `None` when no whole block is left.
    pub fn next(&mut self) -> (r: Option<EsfRawData>)
        ensures
            final(self).data == old(self).data,
            old(self).offset + 8 <= old(self).data@.len() ==> {
                let s = old(self).data@;
                let o = old(self).offset as int;
                &&& r == Some(
                    EsfRawData {
                        data_type: s[o + 3],
                        data_field: (le_u32(s, o) % 0x100_0000) as u32,
                        sensor_time_tag: le_u32(s, o + 4),
                    },
                )
                &&& final(self).offset == old(self).offset + 8
            },
            old(self).offset + 8 > old(self).data@.len() ==> r is None && final(self).offset
                == old(self).offset,
    {
        if self.data.len() < 8 || self.offset > self.data.len() - 8 {
            return None;
        }
        let o = self.offset;
        let s = self.data;
        self.offset = o + 8;
        let data = read_u32_le(s, o);
        let sensor_time_tag = read_u32_le(s, o + 4);
        Some(EsfRawData { data_type: s[o + 3], data_field: data % 0x100_0000, sensor_time_tag })
    }
}

/// The class, message id and longest payload of each packet type of this
/// module.
pub proof fn lemma_packet_ids()
    ensures
        EsfRaw::CLASS == 0x10,
        EsfRaw::ID == 0x03,
        EsfRaw::MAX_PAYLOAD_LEN == 1240,
{
}

} // verus!
