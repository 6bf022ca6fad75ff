use vstd::prelude::*;

verus! {

/// State of map matching in a fix.
#[derive(Debug, Copy, Clone, PartialEq, Eq, Structural)]
pub enum MapMatchingStatus {
    /// No map matching.
    NoMapMatching,
    /// Map matching data was received, but was too old.
    Valid,
    /// Map matching data was applied.
    Used,
    /// Map matching was the reason to enable the dead reckoning fix type
    /// instead of publishing no fix.
    Dr,
}

impl MapMatchingStatus {
    /// The status named by the two-bit value `bits`.
    pub open spec fn spec_from_bits(bits: u8) -> MapMatchingStatus {
        if bits == 0 {
            MapMatchingStatus::NoMapMatching
        } else if bits == 1 {
            MapMatchingStatus::Valid
        } else if bits == 2 {
            MapMatchingStatus::Used
        } else {
            MapMatchingStatus::Dr
        }
    }
}

/// Fix status information: a raw status byte.
#[derive(Copy, Clone)]
pub struct FixStatusInfo(u8);

impl View for FixStatusInfo {
    type V = u8;

    closed spec fn view(&self) -> u8 {
        self.0
    }
}

impl FixStatusInfo {
    /// Whether differential corrections were applied (bit 0).
    pub fn has_pr_prr_correction(self) -> (r: bool)
        ensures
            r == (self@ % 2 == 1),
    {
        self.0 % 2 == 1
    }

    /// The map matching status held in bits 6 and 7.
    pub fn map_matching(self) -> (r: MapMatchingStatus)
        ensures
            r == MapMatchingStatus::spec_from_bits(self@ / 64),
    {
        let bits: u8 = self.0 / 64;
        if bits == 0 {
            MapMatchingStatus::NoMapMatching
        } else if bits == 1 {
            MapMatchingStatus::Valid
        } else if bits == 2 {
            MapMatchingStatus::Used
        } else {
            MapMatchingStatus::Dr
        }
    }

    /// The status held in the raw byte `x`.
    pub fn from(x: u8) -> (r: Self)
        ensures
            r@ == x,
    {
        FixStatusInfo(x)
    }
}

/// The map matching states as the u-blox protocol numbers them in bits 6
/// and 7 of the fix status byte: 0 none, 1 valid, 2 used, 3 dead reckoning.
pub proof fn lemma_map_matching_codes()
    ensures
        MapMatchingStatus::spec_from_bits(0) == MapMatchingStatus::NoMapMatching,
        MapMatchingStatus::spec_from_bits(1) == MapMatchingStatus::Valid,
        MapMatchingStatus::spec_from_bits(2) == MapMatchingStatus::Used,
        MapMatchingStatus::spec_from_bits(3) == MapMatchingStatus::Dr,
{
}

} // verus!
