//! The configuration words of CFG-ITFM: jamming and interference
//! monitoring.

use vstd::prelude::*;

use crate::ubx_packets::bytes_le::le_u32;
use crate::ubx_packets::packets::cfg::CfgItfmRef;
use crate::ubx_packets::packets::enums::CfgItfmAntennaSettings;

verus! {

/// Broadband jamming detection threshold (4 bits at bit 0), in dB.
#[derive(Debug, Copy, Clone, PartialEq, Eq, Structural)]
pub struct CfgItfmBbThreshold(pub u32);

impl CfgItfmBbThreshold {
    /// The bits of the configuration word this threshold sets.
    pub fn into_raw(self) -> (r: u32)
        ensures
            r == self.0 % 16,
    {
        self.0 % 16
    }
}

impl Default for CfgItfmBbThreshold {
    /// The value the protocol specification gives.
    fn default() -> (r: Self)
        ensures
            r == CfgItfmBbThreshold(3),
    {
        Self(3)
    }
}

impl From<u32> for CfgItfmBbThreshold {
    fn from(thres: u32) -> (r: Self) {
        Self(thres)
    }
}

impl vstd::std_specs::convert::FromSpecImpl<u32> for CfgItfmBbThreshold {
    open spec fn obeys_from_spec() -> bool {
        true
    }

    open spec fn from_spec(thres: u32) -> CfgItfmBbThreshold {
        CfgItfmBbThreshold(thres)
    }
}

/// Continuous-wave jamming detection threshold (5 bits at bit 4), in dB.
#[derive(Debug, Copy, Clone, PartialEq, Eq, Structural)]
pub struct CfgItfmCwThreshold(pub u32);

impl CfgItfmCwThreshold {
    /// The bits of the configuration word this threshold sets.
    pub fn into_raw(self) -> (r: u32)
        ensures
            r == (self.0 % 32) * 16,
    {
        (self.0 % 32) * 16
    }
}

impl Default for CfgItfmCwThreshold {
    /// The value the protocol specification gives.
    fn default() -> (r: Self)
        ensures
            r == CfgItfmCwThreshold(15),
    {
        Self(15)
    }
}

impl From<u32> for CfgItfmCwThreshold {
    fn from(thres: u32) -> (r: Self) {
        Self(thres)
    }
}

impl vstd::std_specs::convert::FromSpecImpl<u32> for CfgItfmCwThreshold {
    open spec fn obeys_from_spec() -> bool {
        true
    }

    open spec fn from_spec(thres: u32) -> CfgItfmCwThreshold {
        CfgItfmCwThreshold(thres)
    }
}

/// Algorithm bits (22 bits at bit 9).
#[derive(Debug, Copy, Clone, PartialEq, Eq, Structural)]
pub struct CfgItfmAlgoBits(pub u32);

impl CfgItfmAlgoBits {
    /// The bits of the configuration word these set.
    pub fn into_raw(self) -> (r: u32)
        ensures
            r == (self.0 % 0x40_0000) * 512,
    {
        (self.0 % 0x40_0000) * 512
    }
}

impl Default for CfgItfmAlgoBits {
    /// The value the protocol specification gives.
    fn default() -> (r: Self)
        ensures
            r == CfgItfmAlgoBits(0x16B156),
    {
        Self(0x16B156)
    }
}

impl From<u32> for CfgItfmAlgoBits {
    fn from(thres: u32) -> (r: Self) {
        Self(thres)
    }
}

impl vstd::std_specs::convert::FromSpecImpl<u32> for CfgItfmAlgoBits {
    open spec fn obeys_from_spec() -> bool {
        true
    }

    open spec fn from_spec(thres: u32) -> CfgItfmAlgoBits {
        CfgItfmAlgoBits(thres)
    }
}

/// General bits of the second word (12 bits at bit 0).
#[derive(Debug, Copy, Clone, PartialEq, Eq, Structural)]
pub struct CfgItfmGeneralBits(pub u32);

impl CfgItfmGeneralBits {
    /// The bits of the second word these set.
    pub fn into_raw(self) -> (r: u32)
        ensures
            r == self.0 % 4096,
    {
        self.0 % 4096
    }
}

impl Default for CfgItfmGeneralBits {
    /// The value the protocol specification gives.
    fn default() -> (r: Self)
        ensures
            r == CfgItfmGeneralBits(0x31E),
    {
        Self(0x31E)
    }
}

impl From<u32> for CfgItfmGeneralBits {
    fn from(thres: u32) -> (r: Self) {
        Self(thres)
    }
}

impl vstd::std_specs::convert::FromSpecImpl<u32> for CfgItfmGeneralBits {
    open spec fn obeys_from_spec() -> bool {
        true
    }

    open spec fn from_spec(thres: u32) -> CfgItfmGeneralBits {
        CfgItfmGeneralBits(thres)
    }
}

/// The first configuration word: monitoring on or off, the two jamming
/// thresholds and the algorithm bits.
#[derive(Debug, Copy, Clone, PartialEq, Eq, Structural)]
pub struct CfgItfmConfig {
    pub enable: bool,
    pub bb_threshold: CfgItfmBbThreshold,
    pub cw_threshold: CfgItfmCwThreshold,
    pub algorithm_bits: CfgItfmAlgoBits,
}

impl CfgItfmConfig {
    /// Monitoring on or off with the given thresholds and the default
    /// algorithm bits.
    pub fn new(enable: bool, bb_threshold: u32, cw_threshold: u32) -> (r: Self)
        ensures
            r == (CfgItfmConfig {
                enable,
                bb_threshold: CfgItfmBbThreshold(bb_threshold),
                cw_threshold: CfgItfmCwThreshold(cw_threshold),
                algorithm_bits: CfgItfmAlgoBits(0x16B156),
            }),
    {
        Self {
            enable,
            bb_threshold: CfgItfmBbThreshold::from(bb_threshold),
            cw_threshold: CfgItfmCwThreshold::from(cw_threshold),
            algorithm_bits: CfgItfmAlgoBits::default(),
        }
    }

    /// The configuration word: enable at bit 31 and the fields, each cut to
    /// its width.
    pub open spec fn spec_into_raw(self) -> u32 {
        ((if self.enable { 0x8000_0000int } else { 0 }) + (self.cw_threshold.0 % 32) * 16 + self.bb_threshold.0
            % 16 + (self.algorithm_bits.0 % 0x40_0000) * 512) as u32
    }

    /// The configuration word.
    pub fn into_raw(self) -> (r: u32)
        ensures
            r == self.spec_into_raw(),
    {
        let e: u32 = if self.enable {
            0x8000_0000
        } else {
            0
        };
        e + self.cw_threshold.into_raw() + self.bb_threshold.into_raw() + self.algorithm_bits.into_raw()
    }
}

/// The first configuration word read: each field holds the whole word (the
/// word is cut to the field widths only when written back).
pub open spec fn itfm_config_of(cfg: u32) -> CfgItfmConfig {
    CfgItfmConfig {
        enable: cfg >= 0x8000_0000,
        bb_threshold: CfgItfmBbThreshold(cfg),
        cw_threshold: CfgItfmCwThreshold(cfg),
        algorithm_bits: CfgItfmAlgoBits(cfg),
    }
}

impl From<u32> for CfgItfmConfig {
    fn from(cfg: u32) -> (r: Self) {
        let enable = cfg >= 0x8000_0000;
        Self {
            enable,
            bb_threshold: CfgItfmBbThreshold::from(cfg),
            cw_threshold: CfgItfmCwThreshold::from(cfg),
            algorithm_bits: CfgItfmAlgoBits::from(cfg),
        }
    }
}

impl vstd::std_specs::convert::FromSpecImpl<u32> for CfgItfmConfig {
    open spec fn obeys_from_spec() -> bool {
        true
    }

    open spec fn from_spec(cfg: u32) -> CfgItfmConfig {
        itfm_config_of(cfg)
    }
}

/// The antenna setting in bits 12 and 13 of the second word.
pub open spec fn antenna_of(cfg: u32) -> CfgItfmAntennaSettings {
    let bits = (cfg / 4096) % 4;
    if bits == 1 {
        CfgItfmAntennaSettings::Active
    } else if bits == 2 {
        CfgItfmAntennaSettings::Passive
    } else {
        CfgItfmAntennaSettings::Unknown
    }
}

impl From<u32> for CfgItfmAntennaSettings {
    fn from(cfg: u32) -> (r: Self) {
        let bits = (cfg / 4096) % 4;
        match bits {
            1 => CfgItfmAntennaSettings::Active,
            2 => CfgItfmAntennaSettings::Passive,
            _ => CfgItfmAntennaSettings::Unknown,
        }
    }
}

impl vstd::std_specs::convert::FromSpecImpl<u32> for CfgItfmAntennaSettings {
    open spec fn obeys_from_spec() -> bool {
        true
    }

    open spec fn from_spec(cfg: u32) -> CfgItfmAntennaSettings {
        antenna_of(cfg)
    }
}

/// The second configuration word: general bits, antenna setting and
/// whether the auxiliary bands are scanned.
#[derive(Debug, Copy, Clone, PartialEq, Eq, Structural)]
pub struct CfgItfmConfig2 {
    pub general: CfgItfmGeneralBits,
    pub antenna: CfgItfmAntennaSettings,
    pub scan_aux_bands: bool,
}

impl CfgItfmConfig2 {
    /// The given antenna setting and scan switch, with the default general
    /// bits.
    pub fn new(antenna: CfgItfmAntennaSettings, scan_aux_bands: bool) -> (r: Self)
        ensures
            r == (CfgItfmConfig2 { general: CfgItfmGeneralBits(0x31E), antenna, scan_aux_bands }),
    {
        Self { general: CfgItfmGeneralBits::default(), antenna, scan_aux_bands }
    }

    /// The second word: the scan switch at bit 14, or-ed with the general
    /// bits and the antenna setting's raw value (written at bit 0, where it
    /// overlaps the general bits).
    pub open spec fn spec_into_raw(self) -> u32 {
        ((if self.scan_aux_bands { 1u32 } else { 0u32 }) << 14u32) | (self.general.0 % 4096) | (
        self.antenna.spec_into_raw() as u32)
    }

    /// The second word.
    pub fn into_raw(self) -> (r: u32)
        ensures
            r == self.spec_into_raw(),
    {
        ((if self.scan_aux_bands { 1u32 } else { 0u32 }) << 14u32) | self.general.into_raw() | (
        self.antenna.into_raw() as u32)
    }
}

/// The second configuration word read.
pub open spec fn itfm_config2_of(cfg: u32) -> CfgItfmConfig2 {
    CfgItfmConfig2 {
        scan_aux_bands: (cfg / 0x4000) % 2 == 1,
        general: CfgItfmGeneralBits(cfg),
        antenna: antenna_of(cfg),
    }
}

impl From<u32> for CfgItfmConfig2 {
    fn from(cfg: u32) -> (r: Self) {
        let scan_aux_bands = (cfg / 0x4000) % 2 == 1;
        Self {
            scan_aux_bands,
            general: CfgItfmGeneralBits::from(cfg),
            antenna: CfgItfmAntennaSettings::from(cfg),
        }
    }
}

impl vstd::std_specs::convert::FromSpecImpl<u32> for CfgItfmConfig2 {
    open spec fn obeys_from_spec() -> bool {
        true
    }

    open spec fn from_spec(cfg: u32) -> CfgItfmConfig2 {
        itfm_config2_of(cfg)
    }
}

impl<'a> CfgItfmRef<'a> {
    /// The first configuration word, read.
    pub fn config(&self) -> (r: CfgItfmConfig)
        requires
            Self::spec_validate(self.0@) is Ok,
        ensures
            r == itfm_config_of(le_u32(self.0@, 0)),
    {
        CfgItfmConfig::from(self.config_raw())
    }

    /// The second configuration word, read.
    pub fn config2(&self) -> (r: CfgItfmConfig2)
        requires
            Self::spec_validate(self.0@) is Ok,
        ensures
            r == itfm_config2_of(le_u32(self.0@, 4)),
    {
        CfgItfmConfig2::from(self.config2_raw())
    }
}

} // verus!
