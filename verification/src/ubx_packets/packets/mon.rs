use vstd::prelude::*;

use crate::buffer::slice_subrange;
use crate::error::ParserError;
use crate::ubx_packets::bytes_le::{le_u16, le_u32, read_u16_le, read_u32_le};
use crate::ubx_packets::UbxPacketMeta;
use crate::ubx_packets::packets::enums::{AntennaStatus, AntennaPower};

verus! {

/// GNSS status monitoring: currently selected constellations.
pub struct MonGnss;

impl UbxPacketMeta for MonGnss {
    const CLASS: u8 = 0x0a;
    const ID: u8 = 0x28;
    const MAX_PAYLOAD_LEN: u16 = 8;

    fn fixed_payload_len() -> (r: Option<u16>)
        ensures
            r == Some(8u16),
    {
        Some(8)
    }
}

/// Payload of a [MonGnss] packet.
pub struct MonGnssRef<'a>(pub &'a [u8]);

impl<'a> MonGnssRef<'a> {
    /// The outcome of validating a payload: its length, then each field
    /// that only allows some values.
    pub open spec fn spec_validate(payload: Seq<u8>) -> Result<(), ParserError> {
        if payload.len() != 8 {
            Err(ParserError::InvalidPacketLen { packet: "MonGnss", expect: 8, got: payload.len() as usize })
        }
        else {
            Ok(())
        }
    }

    /// Checks that `payload` is a valid [MonGnss] payload.
    pub fn validate(payload: &[u8]) -> (r: Result<(), ParserError>)
        ensures
            r == Self::spec_validate(payload@),
    {
        if payload.len() != 8 {
            return Err(ParserError::InvalidPacketLen { packet: "MonGnss", expect: 8, got: payload.len() });
        }
        Ok(())
    }

    /// Length of the payload.
    pub fn payload_len(&self) -> (r: usize)
        ensures
            r == self.0@.len(),
    {
        self.0.len()
    }

    /// Message version.
    pub fn version(&self) -> (r: u8)
        requires
            Self::spec_validate(self.0@) is Ok,
        ensures
            r == self.0@[0],
    {
        self.0[0]
    }

    /// Supported major constellations bit mask.
    pub fn supported(&self) -> (r: u8)
        requires
            Self::spec_validate(self.0@) is Ok,
        ensures
            r == self.0@[1],
    {
        self.0[1]
    }

    /// Default major GNSS constellations bit mask.
    pub fn default(&self) -> (r: u8)
        requires
            Self::spec_validate(self.0@) is Ok,
        ensures
            r == self.0@[2],
    {
        self.0[2]
    }

    /// Currently enabled major constellations bit mask.
    pub fn enabled(&self) -> (r: u8)
        requires
            Self::spec_validate(self.0@) is Ok,
        ensures
            r == self.0@[3],
    {
        self.0[3]
    }

    /// Maximum number of concurrent major GNSS.
    pub fn simultaneous(&self) -> (r: u8)
        requires
            Self::spec_validate(self.0@) is Ok,
        ensures
            r == self.0@[4],
    {
        self.0[4]
    }

    pub fn reserved1(&self) -> (r: &[u8])
        requires
            Self::spec_validate(self.0@) is Ok,
        ensures
            r@ == self.0@.subrange(5, 8),
    {
        slice_subrange(self.0, 5, 8)
    }

}

/// Hardware status.
pub struct MonHw;

impl UbxPacketMeta for MonHw {
    const CLASS: u8 = 0x0a;
    const ID: u8 = 0x09;
    const MAX_PAYLOAD_LEN: u16 = 60;

    fn fixed_payload_len() -> (r: Option<u16>)
        ensures
            r == Some(60u16),
    {
        Some(60)
    }
}

/// Payload of a [MonHw] packet.
pub struct MonHwRef<'a>(pub &'a [u8]);

impl<'a> MonHwRef<'a> {
    /// The outcome of validating a payload: its length, then each field
    /// that only allows some values.
    pub open spec fn spec_validate(payload: Seq<u8>) -> Result<(), ParserError> {
        if payload.len() != 60 {
            Err(ParserError::InvalidPacketLen { packet: "MonHw", expect: 60, got: payload.len() as usize })
        }
        else {
            Ok(())
        }
    }

    /// Checks that `payload` is a valid [MonHw] payload.
    pub fn validate(payload: &[u8]) -> (r: Result<(), ParserError>)
        ensures
            r == Self::spec_validate(payload@),
    {
        if payload.len() != 60 {
            return Err(ParserError::InvalidPacketLen { packet: "MonHw", expect: 60, got: payload.len() });
        }
        Ok(())
    }

    /// Length of the payload.
    pub fn payload_len(&self) -> (r: usize)
        ensures
            r == self.0@.len(),
    {
        self.0.len()
    }

    pub fn pin_sel(&self) -> (r: u32)
        requires
            Self::spec_validate(self.0@) is Ok,
        ensures
            r == le_u32(self.0@, 0),
    {
        read_u32_le(self.0, 0)
    }

    pub fn pin_bank(&self) -> (r: u32)
        requires
            Self::spec_validate(self.0@) is Ok,
        ensures
            r == le_u32(self.0@, 4),
    {
        read_u32_le(self.0, 4)
    }

    pub fn pin_dir(&self) -> (r: u32)
        requires
            Self::spec_validate(self.0@) is Ok,
        ensures
            r == le_u32(self.0@, 8),
    {
        read_u32_le(self.0, 8)
    }

    pub fn pin_val(&self) -> (r: u32)
        requires
            Self::spec_validate(self.0@) is Ok,
        ensures
            r == le_u32(self.0@, 12),
    {
        read_u32_le(self.0, 12)
    }

    pub fn noise_per_ms(&self) -> (r: u16)
        requires
            Self::spec_validate(self.0@) is Ok,
        ensures
            r == le_u16(self.0@, 16),
    {
        read_u16_le(self.0, 16)
    }

    pub fn agc_cnt(&self) -> (r: u16)
        requires
            Self::spec_validate(self.0@) is Ok,
        ensures
            r == le_u16(self.0@, 18),
    {
        read_u16_le(self.0, 18)
    }

    /// Antenna supervisor state.
    pub fn a_status_raw(&self) -> (r: u8)
        requires
            Self::spec_validate(self.0@) is Ok,
        ensures
            r == self.0@[20],
    {
        self.0[20]
    }

    /// Antenna supervisor state.
    pub fn a_status(&self) -> (r: AntennaStatus)
        requires
            Self::spec_validate(self.0@) is Ok,
        ensures
            r == AntennaStatus::spec_from(self.0@[20]),
    {
        AntennaStatus::from(self.0[20])
    }

    /// Antenna power state.
    pub fn a_power_raw(&self) -> (r: u8)
        requires
            Self::spec_validate(self.0@) is Ok,
        ensures
            r == self.0@[21],
    {
        self.0[21]
    }

    /// Antenna power state.
    pub fn a_power(&self) -> (r: AntennaPower)
        requires
            Self::spec_validate(self.0@) is Ok,
        ensures
            r == AntennaPower::spec_from(self.0@[21]),
    {
        AntennaPower::from(self.0[21])
    }

    pub fn flags(&self) -> (r: u8)
        requires
            Self::spec_validate(self.0@) is Ok,
        ensures
            r == self.0@[22],
    {
        self.0[22]
    }

    pub fn reserved1(&self) -> (r: u8)
        requires
            Self::spec_validate(self.0@) is Ok,
        ensures
            r == self.0@[23],
    {
        self.0[23]
    }

    pub fn used_mask(&self) -> (r: u32)
        requires
            Self::spec_validate(self.0@) is Ok,
        ensures
            r == le_u32(self.0@, 24),
    {
        read_u32_le(self.0, 24)
    }

    pub fn vp(&self) -> (r: &[u8])
        requires
            Self::spec_validate(self.0@) is Ok,
        ensures
            r@ == self.0@.subrange(28, 45),
    {
        slice_subrange(self.0, 28, 45)
    }

    pub fn jam_ind(&self) -> (r: u8)
        requires
            Self::spec_validate(self.0@) is Ok,
        ensures
            r == self.0@[45],
    {
        self.0[45]
    }

    pub fn reserved2(&self) -> (r: &[u8])
        requires
            Self::spec_validate(self.0@) is Ok,
        ensures
            r@ == self.0@.subrange(46, 48),
    {
        slice_subrange(self.0, 46, 48)
    }

    pub fn pin_irq(&self) -> (r: u32)
        requires
            Self::spec_validate(self.0@) is Ok,
        ensures
            r == le_u32(self.0@, 48),
    {
        read_u32_le(self.0, 48)
    }

    pub fn pull_h(&self) -> (r: u32)
        requires
            Self::spec_validate(self.0@) is Ok,
        ensures
            r == le_u32(self.0@, 52),
    {
        read_u32_le(self.0, 52)
    }

    pub fn pull_l(&self) -> (r: u32)
        requires
            Self::spec_validate(self.0@) is Ok,
        ensures
            r == le_u32(self.0@, 56),
    {
        read_u32_le(self.0, 56)
    }

}

/// The class, message id and longest payload of each packet type of this
/// module.
pub proof fn lemma_packet_ids()
    ensures
        MonGnss::CLASS == 0x0a,
        MonGnss::ID == 0x28,
        MonGnss::MAX_PAYLOAD_LEN == 8,
        MonHw::CLASS == 0x0a,
        MonHw::ID == 0x09,
        MonHw::MAX_PAYLOAD_LEN == 60,
{
}

} // verus!
