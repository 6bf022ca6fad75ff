//! Flags of ESF-ALG and CFG-ESF-ALG: IMU-mount alignment.

use vstd::prelude::*;

use crate::ubx_packets::packets::cfg::CfgEsfAlgRef;
use crate::ubx_packets::packets::esf::EsfAlgRef;

verus! {

/// Status of the IMU-mount alignment.
#[derive(Copy, Clone, Debug, PartialEq, Eq, Structural)]
pub enum EsfAlgStatus {
    UserDefinedAngles,
    RollPitchAlignmentOngoing,
    RollPitchYawAlignmentOngoing,
    CoarseAlignment,
    FineAlignment,
    Invalid,
}

/// The alignment status a three-bit value stands for.
pub open spec fn alg_status_of(bits: u8) -> EsfAlgStatus {
    if bits == 0 {
        EsfAlgStatus::UserDefinedAngles
    } else if bits == 1 {
        EsfAlgStatus::RollPitchAlignmentOngoing
    } else if bits == 2 {
        EsfAlgStatus::RollPitchYawAlignmentOngoing
    } else if bits == 3 {
        EsfAlgStatus::CoarseAlignment
    } else if bits == 4 {
        EsfAlgStatus::FineAlignment
    } else {
        EsfAlgStatus::Invalid
    }
}

/// Flags of an ESF-ALG packet.
#[derive(Copy, Clone, Debug, PartialEq, Eq, Structural)]
pub struct EsfAlgFlags(pub u8);

impl EsfAlgFlags {
    /// The flag bits.
    pub fn flags_raw(&self) -> (r: u8)
        ensures
            r == self.0,
    {
        self.0
    }

    /// Whether the automatic IMU-mount alignment is on (bit 0).
    pub fn auto_imu_mount_alg_on(self) -> (r: bool)
        ensures
            r == (self.0 % 2 != 0),
    {
        self.0 % 2 != 0
    }

    /// Status of the alignment (bits 1 to 3).
    pub fn status(self) -> (r: EsfAlgStatus)
        ensures
            r == alg_status_of((self.0 / 2) % 8),
    {
        let bits = (self.0 / 2) % 8;
        match bits {
            0 => EsfAlgStatus::UserDefinedAngles,
            1 => EsfAlgStatus::RollPitchAlignmentOngoing,
            2 => EsfAlgStatus::RollPitchYawAlignmentOngoing,
            3 => EsfAlgStatus::CoarseAlignment,
            4 => EsfAlgStatus::FineAlignment,
            _ => EsfAlgStatus::Invalid,
        }
    }
}

/// Error bits of an ESF-ALG packet: tilt alignment (1), yaw alignment (2),
/// angle (4); the other bits are reserved and dropped.
#[derive(Copy, Clone, Debug, PartialEq, Eq, Structural)]
pub struct EsfAlgError(pub u8);

impl EsfAlgError {
    /// The error bits of `x`.
    pub fn from(x: u8) -> (r: Self)
        ensures
            r.0 == x % 8,
    {
        EsfAlgError(x % 8)
    }
}

impl<'a> EsfAlgRef<'a> {
    /// The flags.
    pub fn flags(&self) -> (r: EsfAlgFlags)
        requires
            Self::spec_validate(self.0@) is Ok,
        ensures
            r.0 == self.0@[5],
    {
        EsfAlgFlags(self.flags_raw())
    }

    /// The error bits.
    pub fn alg_error(&self) -> (r: EsfAlgError)
        requires
            Self::spec_validate(self.0@) is Ok,
        ensures
            r.0 == self.0@[6] % 8,
    {
        EsfAlgError::from(self.error())
    }
}

/// Flags of a CFG-ESF-ALG packet: the message version and whether the
/// automatic IMU-mount alignment is on.
#[derive(Copy, Clone, Debug, PartialEq, Eq, Structural)]
pub struct CfgEsfAlgFlags {
    pub version: u8,
    pub auto_alignment: bool,
}

/// The flags a raw word holds: the version in its low byte, the alignment
/// switch in bit 8.
pub open spec fn cfg_esf_alg_flags_of(cfg: u32) -> CfgEsfAlgFlags {
    CfgEsfAlgFlags { version: (cfg % 256) as u8, auto_alignment: (cfg / 256) % 2 == 1 }
}

impl From<u32> for CfgEsfAlgFlags {
    fn from(cfg: u32) -> (r: Self) {
        CfgEsfAlgFlags { version: (cfg % 256) as u8, auto_alignment: (cfg / 256) % 2 == 1 }
    }
}

impl vstd::std_specs::convert::FromSpecImpl<u32> for CfgEsfAlgFlags {
    open spec fn obeys_from_spec() -> bool {
        true
    }

    open spec fn from_spec(cfg: u32) -> CfgEsfAlgFlags {
        cfg_esf_alg_flags_of(cfg)
    }
}

impl Default for CfgEsfAlgFlags {
    fn default() -> (r: Self)
        ensures
            r == (CfgEsfAlgFlags { version: 0, auto_alignment: false }),
    {
        CfgEsfAlgFlags { version: 0, auto_alignment: false }
    }
}

impl CfgEsfAlgFlags {
    /// Whether the automatic IMU-mount alignment is on.
    pub fn auto_imu_mount_alg_on(self) -> (r: bool)
        ensures
            r == self.auto_alignment,
    {
        self.auto_alignment
    }

    /// Switches the automatic IMU-mount alignment on or off.
    pub fn set_auto_imu_mount_alg(&mut self, enable: bool)
        ensures
            final(self).auto_alignment == enable,
            final(self).version == old(self).version,
    {
        self.auto_alignment = enable
    }

    /// The message version.
    pub fn version(self) -> (r: u8)
        ensures
            r == self.version,
    {
        self.version
    }

    /// The raw word written for these flags: the alignment switch in bit 8
    /// (the version is not written).
    pub fn into_raw(self) -> (r: u32)
        ensures
            r == (if self.auto_alignment { 256int } else { 0 }),
    {
        if self.auto_alignment {
            256
        } else {
            0
        }
    }
}

impl<'a> CfgEsfAlgRef<'a> {
    /// The flags.
    pub fn flags(&self) -> (r: CfgEsfAlgFlags)
        requires
            Self::spec_validate(self.0@) is Ok,
        ensures
            r == cfg_esf_alg_flags_of(crate::ubx_packets::bytes_le::le_u32(self.0@, 0)),
    {
        CfgEsfAlgFlags::from(self.flags_raw())
    }
}

/// The alignment status carried in bits 1 to 3 of the ESF-ALG flags, as the
/// u-blox protocol numbers it: 0 user-defined angles, 1 roll/pitch alignment
/// ongoing, 2 roll/pitch/yaw alignment ongoing, 3 coarse alignment, 4 fine
/// alignment; the values 5 to 7 are not assigned.
pub proof fn lemma_alg_status_codes()
    ensures
        alg_status_of(0) == EsfAlgStatus::UserDefinedAngles,
        alg_status_of(1) == EsfAlgStatus::RollPitchAlignmentOngoing,
        alg_status_of(2) == EsfAlgStatus::RollPitchYawAlignmentOngoing,
        alg_status_of(3) == EsfAlgStatus::CoarseAlignment,
        alg_status_of(4) == EsfAlgStatus::FineAlignment,
        forall|b: u8| 5 <= b ==> #[trigger] alg_status_of(b) == EsfAlgStatus::Invalid,
{
}

} // verus!
