use vstd::prelude::*;

use crate::buffer::slice_subrange;
use crate::error::ParserError;
use crate::ubx_packets::bytes_le::{le_u16, le_u32, read_i16_le, read_i32_le, read_u32_le};
use crate::ubx_packets::bytes_le::{u16_le_bytes, u16_to_le, u32_le_bytes, u32_to_le};
use crate::ubx_packets::frame::{build_frame, extend_vec, lemma_ubx_frame_layout, ubx_frame, vec_into_array};
use crate::error::MemWriterError;
use crate::ubx_packets::writer::{MemWriter, UbxPacketCreator};
use crate::ubx_packets::bytes_le::{lemma_i16_u16_roundtrip, lemma_i32_u32_roundtrip, lemma_u16_le_roundtrip, lemma_u32_le_roundtrip};
use crate::ubx_packets::UbxPacketMeta;
use crate::ubx_packets::packets::enums::{CfgTp5TimePulseMode};

verus! {

/// Time pulse parameters.
pub struct CfgTp5;

impl UbxPacketMeta for CfgTp5 {
    const CLASS: u8 = 0x06;
    const ID: u8 = 0x31;
    const MAX_PAYLOAD_LEN: u16 = 32;

    fn fixed_payload_len() -> (r: Option<u16>)
        ensures
            r == Some(32u16),
    {
        Some(32)
    }
}

/// Payload of a [CfgTp5] packet.
pub struct CfgTp5Ref<'a>(pub &'a [u8]);

impl<'a> CfgTp5Ref<'a> {
    /// The outcome of validating a payload: its length, then each field
    /// that only allows some values.
    pub open spec fn spec_validate(payload: Seq<u8>) -> Result<(), ParserError> {
        if payload.len() != 32 {
            Err(ParserError::InvalidPacketLen { packet: "CfgTp5", expect: 32, got: payload.len() as usize })
        }
        else if !CfgTp5TimePulseMode::spec_is_valid(payload[0]) {
            Err(ParserError::InvalidField { packet: "CfgTp5", field: "tp_idx" })
        }
        else {
            Ok(())
        }
    }

    /// Checks that `payload` is a valid [CfgTp5] payload.
    pub fn validate(payload: &[u8]) -> (r: Result<(), ParserError>)
        ensures
            r == Self::spec_validate(payload@),
    {
        if payload.len() != 32 {
            return Err(ParserError::InvalidPacketLen { packet: "CfgTp5", expect: 32, got: payload.len() });
        }
        if !CfgTp5TimePulseMode::is_valid(payload[0]) {
            return Err(ParserError::InvalidField { packet: "CfgTp5", field: "tp_idx" });
        }
        Ok(())
    }

    /// Length of the payload.
    pub fn payload_len(&self) -> (r: usize)
        ensures
            r == self.0@.len(),
    {
        self.0.len()
    }

    /// Time pulse selection.
    pub fn tp_idx_raw(&self) -> (r: u8)
        requires
            Self::spec_validate(self.0@) is Ok,
        ensures
            r == self.0@[0],
    {
        self.0[0]
    }

    /// Time pulse selection.
    pub fn tp_idx(&self) -> (r: CfgTp5TimePulseMode)
        requires
            Self::spec_validate(self.0@) is Ok,
        ensures
            r == CfgTp5TimePulseMode::spec_from_raw(self.0@[0]),
    {
        CfgTp5TimePulseMode::from_unchecked(self.0[0])
    }

    pub fn version(&self) -> (r: u8)
        requires
            Self::spec_validate(self.0@) is Ok,
        ensures
            r == self.0@[1],
    {
        self.0[1]
    }

    pub fn reserved1(&self) -> (r: &[u8])
        requires
            Self::spec_validate(self.0@) is Ok,
        ensures
            r@ == self.0@.subrange(2, 4),
    {
        slice_subrange(self.0, 2, 4)
    }

    /// Antenna cable delay (ns).
    pub fn ant_cable_delay_raw(&self) -> (r: i16)
        requires
            Self::spec_validate(self.0@) is Ok,
        ensures
            r == le_u16(self.0@, 4) as i16,
    {
        read_i16_le(self.0, 4)
    }

    /// RF group delay (ns).
    pub fn rf_group_delay_raw(&self) -> (r: i16)
        requires
            Self::spec_validate(self.0@) is Ok,
        ensures
            r == le_u16(self.0@, 6) as i16,
    {
        read_i16_le(self.0, 6)
    }

    /// Frequency (Hz) or period (us).
    pub fn freq_period_raw(&self) -> (r: u32)
        requires
            Self::spec_validate(self.0@) is Ok,
        ensures
            r == le_u32(self.0@, 8),
    {
        read_u32_le(self.0, 8)
    }

    /// Frequency or period when locked to GPS time.
    pub fn freq_period_lock_raw(&self) -> (r: u32)
        requires
            Self::spec_validate(self.0@) is Ok,
        ensures
            r == le_u32(self.0@, 12),
    {
        read_u32_le(self.0, 12)
    }

    /// Pulse length (us) or duty cycle (2^-32).
    pub fn pulse_len_ratio_raw(&self) -> (r: u32)
        requires
            Self::spec_validate(self.0@) is Ok,
        ensures
            r == le_u32(self.0@, 16),
    {
        read_u32_le(self.0, 16)
    }

    /// Pulse length or duty cycle when locked to GPS time.
    pub fn pulse_len_ratio_lock_raw(&self) -> (r: u32)
        requires
            Self::spec_validate(self.0@) is Ok,
        ensures
            r == le_u32(self.0@, 20),
    {
        read_u32_le(self.0, 20)
    }

    /// User configurable time pulse delay (ns).
    pub fn user_delay_raw(&self) -> (r: i32)
        requires
            Self::spec_validate(self.0@) is Ok,
        ensures
            r == le_u32(self.0@, 24) as i32,
    {
        read_i32_le(self.0, 24)
    }

    /// Configuration flags (raw bits).
    pub fn flags(&self) -> (r: u32)
        requires
            Self::spec_validate(self.0@) is Ok,
        ensures
            r == le_u32(self.0@, 28),
    {
        read_u32_le(self.0, 28)
    }

}

/// Builder of [CfgTp5] packets: the raw values of the fields.
pub struct CfgTp5Builder {
    /// Time pulse selection.
    pub tp_idx: CfgTp5TimePulseMode,
    pub version: u8,
    pub reserved1: [u8; 2],
    /// Antenna cable delay (ns).
    pub ant_cable_delay_raw: i16,
    /// RF group delay (ns).
    pub rf_group_delay_raw: i16,
    /// Frequency (Hz) or period (us).
    pub freq_period_raw: u32,
    /// Frequency or period when locked to GPS time.
    pub freq_period_lock_raw: u32,
    /// Pulse length (us) or duty cycle (2^-32).
    pub pulse_len_ratio_raw: u32,
    /// Pulse length or duty cycle when locked to GPS time.
    pub pulse_len_ratio_lock_raw: u32,
    /// User configurable time pulse delay (ns).
    pub user_delay_raw: i32,
    /// Configuration flags (raw bits).
    pub flags: u32,
}

impl CfgTp5Builder {
    /// The payload these fields make.
    pub open spec fn payload(&self) -> Seq<u8> {
        seq![self.tp_idx.spec_into_raw()]
            + seq![self.version]
            + self.reserved1@
            + u16_le_bytes(self.ant_cable_delay_raw as u16)
            + u16_le_bytes(self.rf_group_delay_raw as u16)
            + u32_le_bytes(self.freq_period_raw)
            + u32_le_bytes(self.freq_period_lock_raw)
            + u32_le_bytes(self.pulse_len_ratio_raw)
            + u32_le_bytes(self.pulse_len_ratio_lock_raw)
            + u32_le_bytes(self.user_delay_raw as u32)
            + u32_le_bytes(self.flags)
    }

    /// The whole packet frame.
    pub fn into_packet_bytes(self) -> (r: [u8; 40])
        ensures
            r@ == ubx_frame(CfgTp5::CLASS, CfgTp5::ID, self.payload()),
    {
        let mut payload: Vec<u8> = Vec::new();
        payload.push(self.tp_idx.into_raw());
        payload.push(self.version);
        extend_vec(&mut payload, self.reserved1.as_slice());
        extend_vec(&mut payload, u16_to_le(self.ant_cable_delay_raw as u16).as_slice());
        extend_vec(&mut payload, u16_to_le(self.rf_group_delay_raw as u16).as_slice());
        extend_vec(&mut payload, u32_to_le(self.freq_period_raw).as_slice());
        extend_vec(&mut payload, u32_to_le(self.freq_period_lock_raw).as_slice());
        extend_vec(&mut payload, u32_to_le(self.pulse_len_ratio_raw).as_slice());
        extend_vec(&mut payload, u32_to_le(self.pulse_len_ratio_lock_raw).as_slice());
        extend_vec(&mut payload, u32_to_le(self.user_delay_raw as u32).as_slice());
        extend_vec(&mut payload, u32_to_le(self.flags).as_slice());
        proof {
            assert(payload@ =~= self.payload());
            lemma_ubx_frame_layout(CfgTp5::CLASS, CfgTp5::ID, payload@, Seq::<u8>::empty());
            assert(ubx_frame(CfgTp5::CLASS, CfgTp5::ID, payload@) + Seq::<u8>::empty() =~= ubx_frame(
                CfgTp5::CLASS,
                CfgTp5::ID,
                payload@,
            ));
        }
        let frame = build_frame(CfgTp5::CLASS, CfgTp5::ID, payload.as_slice());
        vec_into_array::<40>(&frame)
    }
}

impl UbxPacketCreator for CfgTp5Builder {
    open spec fn packet_bytes(&self) -> Seq<u8> {
        ubx_frame(CfgTp5::CLASS, CfgTp5::ID, self.payload())
    }

    fn create_packet<T: MemWriter>(self, out: &mut T) -> (r: Result<(), MemWriterError<T::Error>>) {
        let bytes = self.into_packet_bytes();
        out.reserve_allocate(40)?;
        out.write(bytes.as_slice())
    }
}

impl Default for CfgTp5Builder {
    fn default() -> (r: Self)
        ensures
            r.tp_idx == CfgTp5TimePulseMode::TimePulse,
            r.version == 0,
            r.reserved1@ == Seq::<u8>::new(2, |i: int| 0u8),
            r.ant_cable_delay_raw == 0,
            r.rf_group_delay_raw == 0,
            r.freq_period_raw == 0,
            r.freq_period_lock_raw == 0,
            r.pulse_len_ratio_raw == 0,
            r.pulse_len_ratio_lock_raw == 0,
            r.user_delay_raw == 0,
            r.flags == 0,
    {
        let r = CfgTp5Builder { tp_idx: CfgTp5TimePulseMode::TimePulse, version: 0, reserved1: [0u8; 2], ant_cable_delay_raw: 0, rf_group_delay_raw: 0, freq_period_raw: 0, freq_period_lock_raw: 0, pulse_len_ratio_raw: 0, pulse_len_ratio_lock_raw: 0, user_delay_raw: 0, flags: 0 };
        proof {
            assert(r.reserved1@ =~= Seq::<u8>::new(2, |i: int| 0u8));
        }
        r
    }
}

/// Reading back what a [CfgTp5Builder] writes: the payload validates, and
/// each getter of [CfgTp5Ref] gives the builder's field.
pub proof fn lemma_cfg_tp5_fields_roundtrip(b: CfgTp5Builder)
    ensures
        CfgTp5Ref::spec_validate(b.payload()) is Ok,
        CfgTp5TimePulseMode::spec_from_raw(b.payload()[0]) == b.tp_idx,
        b.payload()[1] == b.version,
        b.payload().subrange(2, 4) == b.reserved1@,
        le_u16(b.payload(), 4) as i16 == b.ant_cable_delay_raw,
        le_u16(b.payload(), 6) as i16 == b.rf_group_delay_raw,
        le_u32(b.payload(), 8) == b.freq_period_raw,
        le_u32(b.payload(), 12) == b.freq_period_lock_raw,
        le_u32(b.payload(), 16) == b.pulse_len_ratio_raw,
        le_u32(b.payload(), 20) == b.pulse_len_ratio_lock_raw,
        le_u32(b.payload(), 24) as i32 == b.user_delay_raw,
        le_u32(b.payload(), 28) == b.flags,
{
    assert(b.payload().len() == 32);
    b.tp_idx.lemma_raw_roundtrip();
    assert(b.payload()[0] == b.tp_idx.spec_into_raw());
    assert(b.payload()[1] == b.version);
    assert(b.payload().subrange(2, 4) =~= b.reserved1@);
    lemma_u16_le_roundtrip(b.ant_cable_delay_raw as u16);
    lemma_i16_u16_roundtrip(b.ant_cable_delay_raw);
    assert(b.payload().subrange(4, 6) =~= u16_le_bytes(b.ant_cable_delay_raw as u16));
    assert(le_u16(b.payload(), 4) == le_u16(u16_le_bytes(b.ant_cable_delay_raw as u16), 0));
    lemma_u16_le_roundtrip(b.rf_group_delay_raw as u16);
    lemma_i16_u16_roundtrip(b.rf_group_delay_raw);
    assert(b.payload().subrange(6, 8) =~= u16_le_bytes(b.rf_group_delay_raw as u16));
    assert(le_u16(b.payload(), 6) == le_u16(u16_le_bytes(b.rf_group_delay_raw as u16), 0));
    lemma_u32_le_roundtrip(b.freq_period_raw);
    assert(b.payload().subrange(8, 12) =~= u32_le_bytes(b.freq_period_raw));
    assert(le_u32(b.payload(), 8) == le_u32(u32_le_bytes(b.freq_period_raw), 0));
    lemma_u32_le_roundtrip(b.freq_period_lock_raw);
    assert(b.payload().subrange(12, 16) =~= u32_le_bytes(b.freq_period_lock_raw));
    assert(le_u32(b.payload(), 12) == le_u32(u32_le_bytes(b.freq_period_lock_raw), 0));
    lemma_u32_le_roundtrip(b.pulse_len_ratio_raw);
    assert(b.payload().subrange(16, 20) =~= u32_le_bytes(b.pulse_len_ratio_raw));
    assert(le_u32(b.payload(), 16) == le_u32(u32_le_bytes(b.pulse_len_ratio_raw), 0));
    lemma_u32_le_roundtrip(b.pulse_len_ratio_lock_raw);
    assert(b.payload().subrange(20, 24) =~= u32_le_bytes(b.pulse_len_ratio_lock_raw));
    assert(le_u32(b.payload(), 20) == le_u32(u32_le_bytes(b.pulse_len_ratio_lock_raw), 0));
    lemma_u32_le_roundtrip(b.user_delay_raw as u32);
    lemma_i32_u32_roundtrip(b.user_delay_raw);
    assert(b.payload().subrange(24, 28) =~= u32_le_bytes(b.user_delay_raw as u32));
    assert(le_u32(b.payload(), 24) == le_u32(u32_le_bytes(b.user_delay_raw as u32), 0));
    lemma_u32_le_roundtrip(b.flags);
    assert(b.payload().subrange(28, 32) =~= u32_le_bytes(b.flags));
    assert(le_u32(b.payload(), 28) == le_u32(u32_le_bytes(b.flags), 0));
}

/// The class, message id and longest payload of each packet type of this
/// module.
pub proof fn lemma_packet_ids()
    ensures
        CfgTp5::CLASS == 0x06,
        CfgTp5::ID == 0x31,
        CfgTp5::MAX_PAYLOAD_LEN == 32,
{
}

} // verus!
