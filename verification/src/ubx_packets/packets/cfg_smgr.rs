use vstd::prelude::*;

use crate::error::ParserError;
use crate::ubx_packets::bytes_le::{le_u16, le_u32, read_u16_le, read_u32_le};
use crate::ubx_packets::bytes_le::{u16_le_bytes, u16_to_le, u32_le_bytes, u32_to_le};
use crate::ubx_packets::frame::{build_frame, extend_vec, lemma_ubx_frame_layout, ubx_frame, vec_into_array};
use crate::error::MemWriterError;
use crate::ubx_packets::writer::{MemWriter, UbxPacketCreator};
use crate::ubx_packets::bytes_le::{lemma_u16_le_roundtrip, lemma_u32_le_roundtrip};
use crate::ubx_packets::UbxPacketMeta;

verus! {

/// Synchronization manager configuration.
pub struct CfgSmgr;

impl UbxPacketMeta for CfgSmgr {
    const CLASS: u8 = 0x06;
    const ID: u8 = 0x62;
    const MAX_PAYLOAD_LEN: u16 = 20;

    fn fixed_payload_len() -> (r: Option<u16>)
        ensures
            r == Some(20u16),
    {
        Some(20)
    }
}

/// Payload of a [CfgSmgr] packet.
pub struct CfgSmgrRef<'a>(pub &'a [u8]);

impl<'a> CfgSmgrRef<'a> {
    /// The outcome of validating a payload: its length, then each field
    /// that only allows some values.
    pub open spec fn spec_validate(payload: Seq<u8>) -> Result<(), ParserError> {
        if payload.len() != 20 {
            Err(ParserError::InvalidPacketLen { packet: "CfgSmgr", expect: 20, got: payload.len() as usize })
        }
        else {
            Ok(())
        }
    }

    /// Checks that `payload` is a valid [CfgSmgr] payload.
    pub fn validate(payload: &[u8]) -> (r: Result<(), ParserError>)
        ensures
            r == Self::spec_validate(payload@),
    {
        if payload.len() != 20 {
            return Err(ParserError::InvalidPacketLen { packet: "CfgSmgr", expect: 20, got: payload.len() });
        }
        Ok(())
    }

    /// Length of the payload.
    pub fn payload_len(&self) -> (r: usize)
        ensures
            r == self.0@.len(),
    {
        self.0.len()
    }

    pub fn version(&self) -> (r: u8)
        requires
            Self::spec_validate(self.0@) is Ok,
        ensures
            r == self.0@[0],
    {
        self.0[0]
    }

    /// Minimum number of GNSS fixes before it is used as a source.
    pub fn min_gnss_fix(&self) -> (r: u8)
        requires
            Self::spec_validate(self.0@) is Ok,
        ensures
            r == self.0@[1],
    {
        self.0[1]
    }

    /// Maximum frequency rate change when disciplining (ppb/s).
    pub fn max_freq_change_rate_raw(&self) -> (r: u16)
        requires
            Self::spec_validate(self.0@) is Ok,
        ensures
            r == le_u16(self.0@, 2),
    {
        read_u16_le(self.0, 2)
    }

    /// Maximum phase correction rate in coherent time pulse mode (ns/s).
    pub fn max_phase_corr_rate(&self) -> (r: u16)
        requires
            Self::spec_validate(self.0@) is Ok,
        ensures
            r == le_u16(self.0@, 4),
    {
        read_u16_le(self.0, 4)
    }

    pub fn reserved1(&self) -> (r: u16)
        requires
            Self::spec_validate(self.0@) is Ok,
        ensures
            r == le_u16(self.0@, 6),
    {
        read_u16_le(self.0, 6)
    }

    /// Limit of frequency deviation (ppb).
    pub fn freq_tolerance_raw(&self) -> (r: u16)
        requires
            Self::spec_validate(self.0@) is Ok,
        ensures
            r == le_u16(self.0@, 8),
    {
        read_u16_le(self.0, 8)
    }

    /// Limit of pulse deviation (ns).
    pub fn time_tolerance_raw(&self) -> (r: u16)
        requires
            Self::spec_validate(self.0@) is Ok,
        ensures
            r == le_u16(self.0@, 10),
    {
        read_u16_le(self.0, 10)
    }

    /// Message configuration (raw bits).
    pub fn msg(&self) -> (r: u16)
        requires
            Self::spec_validate(self.0@) is Ok,
        ensures
            r == le_u16(self.0@, 12),
    {
        read_u16_le(self.0, 12)
    }

    /// Maximum slew rate, in units of 1e-6 s/s.
    pub fn max_slew_rate_raw(&self) -> (r: u16)
        requires
            Self::spec_validate(self.0@) is Ok,
        ensures
            r == le_u16(self.0@, 14),
    {
        read_u16_le(self.0, 14)
    }

    /// Configuration flags (raw bits).
    pub fn flags(&self) -> (r: u32)
        requires
            Self::spec_validate(self.0@) is Ok,
        ensures
            r == le_u32(self.0@, 16),
    {
        read_u32_le(self.0, 16)
    }

}

/// Builder of [CfgSmgr] packets: the raw values of the fields.
pub struct CfgSmgrBuilder {
    pub version: u8,
    /// Minimum number of GNSS fixes before it is used as a source.
    pub min_gnss_fix: u8,
    /// Maximum frequency rate change when disciplining (ppb/s).
    pub max_freq_change_rate_raw: u16,
    /// Maximum phase correction rate in coherent time pulse mode (ns/s).
    pub max_phase_corr_rate: u16,
    pub reserved1: u16,
    /// Limit of frequency deviation (ppb).
    pub freq_tolerance_raw: u16,
    /// Limit of pulse deviation (ns).
    pub time_tolerance_raw: u16,
    /// Message configuration (raw bits).
    pub msg: u16,
    /// Maximum slew rate, in units of 1e-6 s/s.
    pub max_slew_rate_raw: u16,
    /// Configuration flags (raw bits).
    pub flags: u32,
}

impl CfgSmgrBuilder {
    /// The payload these fields make.
    pub open spec fn payload(&self) -> Seq<u8> {
        seq![self.version]
            + seq![self.min_gnss_fix]
            + u16_le_bytes(self.max_freq_change_rate_raw)
            + u16_le_bytes(self.max_phase_corr_rate)
            + u16_le_bytes(self.reserved1)
            + u16_le_bytes(self.freq_tolerance_raw)
            + u16_le_bytes(self.time_tolerance_raw)
            + u16_le_bytes(self.msg)
            + u16_le_bytes(self.max_slew_rate_raw)
            + u32_le_bytes(self.flags)
    }

    /// The whole packet frame.
    pub fn into_packet_bytes(self) -> (r: [u8; 28])
        ensures
            r@ == ubx_frame(CfgSmgr::CLASS, CfgSmgr::ID, self.payload()),
    {
        let mut payload: Vec<u8> = Vec::new();
        payload.push(self.version);
        payload.push(self.min_gnss_fix);
        extend_vec(&mut payload, u16_to_le(self.max_freq_change_rate_raw).as_slice());
        extend_vec(&mut payload, u16_to_le(self.max_phase_corr_rate).as_slice());
        extend_vec(&mut payload, u16_to_le(self.reserved1).as_slice());
        extend_vec(&mut payload, u16_to_le(self.freq_tolerance_raw).as_slice());
        extend_vec(&mut payload, u16_to_le(self.time_tolerance_raw).as_slice());
        extend_vec(&mut payload, u16_to_le(self.msg).as_slice());
        extend_vec(&mut payload, u16_to_le(self.max_slew_rate_raw).as_slice());
        extend_vec(&mut payload, u32_to_le(self.flags).as_slice());
        proof {
            assert(payload@ =~= self.payload());
            lemma_ubx_frame_layout(CfgSmgr::CLASS, CfgSmgr::ID, payload@, Seq::<u8>::empty());
            assert(ubx_frame(CfgSmgr::CLASS, CfgSmgr::ID, payload@) + Seq::<u8>::empty() =~= ubx_frame(
                CfgSmgr::CLASS,
                CfgSmgr::ID,
                payload@,
            ));
        }
        let frame = build_frame(CfgSmgr::CLASS, CfgSmgr::ID, payload.as_slice());
        vec_into_array::<28>(&frame)
    }
}

impl UbxPacketCreator for CfgSmgrBuilder {
    open spec fn packet_bytes(&self) -> Seq<u8> {
        ubx_frame(CfgSmgr::CLASS, CfgSmgr::ID, self.payload())
    }

    fn create_packet<T: MemWriter>(self, out: &mut T) -> (r: Result<(), MemWriterError<T::Error>>) {
        let bytes = self.into_packet_bytes();
        out.reserve_allocate(28)?;
        out.write(bytes.as_slice())
    }
}

impl Default for CfgSmgrBuilder {
    fn default() -> (r: Self)
        ensures
            r.version == 0,
            r.min_gnss_fix == 0,
            r.max_freq_change_rate_raw == 0,
            r.max_phase_corr_rate == 0,
            r.reserved1 == 0,
            r.freq_tolerance_raw == 0,
            r.time_tolerance_raw == 0,
            r.msg == 0,
            r.max_slew_rate_raw == 0,
            r.flags == 0,
    {
        let r = CfgSmgrBuilder { version: 0, min_gnss_fix: 0, max_freq_change_rate_raw: 0, max_phase_corr_rate: 0, reserved1: 0, freq_tolerance_raw: 0, time_tolerance_raw: 0, msg: 0, max_slew_rate_raw: 0, flags: 0 };
        r
    }
}

/// Reading back what a [CfgSmgrBuilder] writes: the payload validates, and
/// each getter of [CfgSmgrRef] gives the builder's field.
pub proof fn lemma_cfg_smgr_fields_roundtrip(b: CfgSmgrBuilder)
    ensures
        CfgSmgrRef::spec_validate(b.payload()) is Ok,
        b.payload()[0] == b.version,
        b.payload()[1] == b.min_gnss_fix,
        le_u16(b.payload(), 2) == b.max_freq_change_rate_raw,
        le_u16(b.payload(), 4) == b.max_phase_corr_rate,
        le_u16(b.payload(), 6) == b.reserved1,
        le_u16(b.payload(), 8) == b.freq_tolerance_raw,
        le_u16(b.payload(), 10) == b.time_tolerance_raw,
        le_u16(b.payload(), 12) == b.msg,
        le_u16(b.payload(), 14) == b.max_slew_rate_raw,
        le_u32(b.payload(), 16) == b.flags,
{
    assert(b.payload().len() == 20);
    assert(b.payload()[0] == b.version);
    assert(b.payload()[1] == b.min_gnss_fix);
    lemma_u16_le_roundtrip(b.max_freq_change_rate_raw);
    assert(b.payload().subrange(2, 4) =~= u16_le_bytes(b.max_freq_change_rate_raw));
    assert(le_u16(b.payload(), 2) == le_u16(u16_le_bytes(b.max_freq_change_rate_raw), 0));
    lemma_u16_le_roundtrip(b.max_phase_corr_rate);
    assert(b.payload().subrange(4, 6) =~= u16_le_bytes(b.max_phase_corr_rate));
    assert(le_u16(b.payload(), 4) == le_u16(u16_le_bytes(b.max_phase_corr_rate), 0));
    lemma_u16_le_roundtrip(b.reserved1);
    assert(b.payload().subrange(6, 8) =~= u16_le_bytes(b.reserved1));
    assert(le_u16(b.payload(), 6) == le_u16(u16_le_bytes(b.reserved1), 0));
    lemma_u16_le_roundtrip(b.freq_tolerance_raw);
    assert(b.payload().subrange(8, 10) =~= u16_le_bytes(b.freq_tolerance_raw));
    assert(le_u16(b.payload(), 8) == le_u16(u16_le_bytes(b.freq_tolerance_raw), 0));
    lemma_u16_le_roundtrip(b.time_tolerance_raw);
    assert(b.payload().subrange(10, 12) =~= u16_le_bytes(b.time_tolerance_raw));
    assert(le_u16(b.payload(), 10) == le_u16(u16_le_bytes(b.time_tolerance_raw), 0));
    lemma_u16_le_roundtrip(b.msg);
    assert(b.payload().subrange(12, 14) =~= u16_le_bytes(b.msg));
    assert(le_u16(b.payload(), 12) == le_u16(u16_le_bytes(b.msg), 0));
    lemma_u16_le_roundtrip(b.max_slew_rate_raw);
    assert(b.payload().subrange(14, 16) =~= u16_le_bytes(b.max_slew_rate_raw));
    assert(le_u16(b.payload(), 14) == le_u16(u16_le_bytes(b.max_slew_rate_raw), 0));
    lemma_u32_le_roundtrip(b.flags);
    assert(b.payload().subrange(16, 20) =~= u32_le_bytes(b.flags));
    assert(le_u32(b.payload(), 16) == le_u32(u32_le_bytes(b.flags), 0));
}

/// The class, message id and longest payload of each packet type of this
/// module.
pub proof fn lemma_packet_ids()
    ensures
        CfgSmgr::CLASS == 0x06,
        CfgSmgr::ID == 0x62,
        CfgSmgr::MAX_PAYLOAD_LEN == 20,
{
}

} // verus!
