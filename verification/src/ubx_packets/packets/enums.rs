use vstd::prelude::*;

verus! {

/// Dynamic platform model.
#[derive(Debug, Copy, Clone, PartialEq, Eq, Structural)]
pub enum NavDynamicModel {
    Portable,
    Stationary,
    Pedestrian,
    Automotive,
    Sea,
    AirborneWithLess1gAcceleration,
    AirborneWithLess2gAcceleration,
    AirborneWithLess4gAcceleration,
    WristWornWatch,
    Bike,
}

impl NavDynamicModel {
    /// Whether `x` is the raw value of some variant.
    pub open spec fn spec_is_valid(x: u8) -> bool {
        x == 0 || x == 2 || x == 3 || x == 4 || x == 5 || x == 6 || x == 7 || x == 8 || x == 9 || x == 10
    }

    /// The variant whose raw value is `x`.
    pub open spec fn spec_from_raw(x: u8) -> NavDynamicModel {
        if x == 0 {
            NavDynamicModel::Portable
        } else if x == 2 {
            NavDynamicModel::Stationary
        } else if x == 3 {
            NavDynamicModel::Pedestrian
        } else if x == 4 {
            NavDynamicModel::Automotive
        } else if x == 5 {
            NavDynamicModel::Sea
        } else if x == 6 {
            NavDynamicModel::AirborneWithLess1gAcceleration
        } else if x == 7 {
            NavDynamicModel::AirborneWithLess2gAcceleration
        } else if x == 8 {
            NavDynamicModel::AirborneWithLess4gAcceleration
        } else if x == 9 {
            NavDynamicModel::WristWornWatch
        } else if x == 10 {
            NavDynamicModel::Bike
        } else {
            NavDynamicModel::Portable
        }
    }

    /// The raw value of this variant.
    pub open spec fn spec_into_raw(self) -> u8 {
        match self {
            NavDynamicModel::Portable => 0,
            NavDynamicModel::Stationary => 2,
            NavDynamicModel::Pedestrian => 3,
            NavDynamicModel::Automotive => 4,
            NavDynamicModel::Sea => 5,
            NavDynamicModel::AirborneWithLess1gAcceleration => 6,
            NavDynamicModel::AirborneWithLess2gAcceleration => 7,
            NavDynamicModel::AirborneWithLess4gAcceleration => 8,
            NavDynamicModel::WristWornWatch => 9,
            NavDynamicModel::Bike => 10,
        }
    }

    /// Whether `x` is the raw value of some variant.
    pub fn is_valid(x: u8) -> (r: bool)
        ensures
            r == Self::spec_is_valid(x),
    {
        x == 0 || x == 2 || x == 3 || x == 4 || x == 5 || x == 6 || x == 7 || x == 8 || x == 9 || x == 10
    }

    /// The variant whose raw value is `x`.
    pub fn from_unchecked(x: u8) -> (r: NavDynamicModel)
        requires
            Self::spec_is_valid(x),
        ensures
            r == Self::spec_from_raw(x),
            r.spec_into_raw() == x,
    {
        if x == 0 {
            NavDynamicModel::Portable
        } else if x == 2 {
            NavDynamicModel::Stationary
        } else if x == 3 {
            NavDynamicModel::Pedestrian
        } else if x == 4 {
            NavDynamicModel::Automotive
        } else if x == 5 {
            NavDynamicModel::Sea
        } else if x == 6 {
            NavDynamicModel::AirborneWithLess1gAcceleration
        } else if x == 7 {
            NavDynamicModel::AirborneWithLess2gAcceleration
        } else if x == 8 {
            NavDynamicModel::AirborneWithLess4gAcceleration
        } else if x == 9 {
            NavDynamicModel::WristWornWatch
        } else if x == 10 {
            NavDynamicModel::Bike
        } else {
            NavDynamicModel::Portable
        }
    }

    /// The raw value of this variant.
    pub fn into_raw(self) -> (r: u8)
        ensures
            r == self.spec_into_raw(),
    {
        match self {
            NavDynamicModel::Portable => 0,
            NavDynamicModel::Stationary => 2,
            NavDynamicModel::Pedestrian => 3,
            NavDynamicModel::Automotive => 4,
            NavDynamicModel::Sea => 5,
            NavDynamicModel::AirborneWithLess1gAcceleration => 6,
            NavDynamicModel::AirborneWithLess2gAcceleration => 7,
            NavDynamicModel::AirborneWithLess4gAcceleration => 8,
            NavDynamicModel::WristWornWatch => 9,
            NavDynamicModel::Bike => 10,
        }
    }

    /// The raw value of each variant is valid and maps back to the variant.
    pub proof fn lemma_raw_roundtrip(self)
        ensures
            Self::spec_is_valid(self.spec_into_raw()),
            Self::spec_from_raw(self.spec_into_raw()) == self,
    {
    }
}

impl Default for NavDynamicModel {
    fn default() -> (r: Self)
        ensures
            r == NavDynamicModel::AirborneWithLess4gAcceleration,
    {
        NavDynamicModel::AirborneWithLess4gAcceleration
    }
}

/// Position fixing mode.
#[derive(Debug, Copy, Clone, PartialEq, Eq, Structural)]
pub enum NavFixMode {
    Only2D,
    Only3D,
    Auto2D3D,
}

impl NavFixMode {
    /// Whether `x` is the raw value of some variant.
    pub open spec fn spec_is_valid(x: u8) -> bool {
        x == 1 || x == 2 || x == 3
    }

    /// The variant whose raw value is `x`.
    pub open spec fn spec_from_raw(x: u8) -> NavFixMode {
        if x == 1 {
            NavFixMode::Only2D
        } else if x == 2 {
            NavFixMode::Only3D
        } else if x == 3 {
            NavFixMode::Auto2D3D
        } else {
            NavFixMode::Only2D
        }
    }

    /// The raw value of this variant.
    pub open spec fn spec_into_raw(self) -> u8 {
        match self {
            NavFixMode::Only2D => 1,
            NavFixMode::Only3D => 2,
            NavFixMode::Auto2D3D => 3,
        }
    }

    /// Whether `x` is the raw value of some variant.
    pub fn is_valid(x: u8) -> (r: bool)
        ensures
            r == Self::spec_is_valid(x),
    {
        x == 1 || x == 2 || x == 3
    }

    /// The variant whose raw value is `x`.
    pub fn from_unchecked(x: u8) -> (r: NavFixMode)
        requires
            Self::spec_is_valid(x),
        ensures
            r == Self::spec_from_raw(x),
            r.spec_into_raw() == x,
    {
        if x == 1 {
            NavFixMode::Only2D
        } else if x == 2 {
            NavFixMode::Only3D
        } else if x == 3 {
            NavFixMode::Auto2D3D
        } else {
            NavFixMode::Only2D
        }
    }

    /// The raw value of this variant.
    pub fn into_raw(self) -> (r: u8)
        ensures
            r == self.spec_into_raw(),
    {
        match self {
            NavFixMode::Only2D => 1,
            NavFixMode::Only3D => 2,
            NavFixMode::Auto2D3D => 3,
        }
    }

    /// The raw value of each variant is valid and maps back to the variant.
    pub proof fn lemma_raw_roundtrip(self)
        ensures
            Self::spec_is_valid(self.spec_into_raw()),
            Self::spec_from_raw(self.spec_into_raw()) == self,
    {
    }
}

impl Default for NavFixMode {
    fn default() -> (r: Self)
        ensures
            r == NavFixMode::Auto2D3D,
    {
        NavFixMode::Auto2D3D
    }
}

/// UTC standard to be used.
#[derive(Debug, Copy, Clone, PartialEq, Eq, Structural)]
pub enum UtcStandardIdentifier {
    Automatic,
    Usno,
    UtcSu,
    UtcChina,
}

impl UtcStandardIdentifier {
    /// Whether `x` is the raw value of some variant.
    pub open spec fn spec_is_valid(x: u8) -> bool {
        x == 0 || x == 3 || x == 6 || x == 7
    }

    /// The variant whose raw value is `x`.
    pub open spec fn spec_from_raw(x: u8) -> UtcStandardIdentifier {
        if x == 0 {
            UtcStandardIdentifier::Automatic
        } else if x == 3 {
            UtcStandardIdentifier::Usno
        } else if x == 6 {
            UtcStandardIdentifier::UtcSu
        } else if x == 7 {
            UtcStandardIdentifier::UtcChina
        } else {
            UtcStandardIdentifier::Automatic
        }
    }

    /// The raw value of this variant.
    pub open spec fn spec_into_raw(self) -> u8 {
        match self {
            UtcStandardIdentifier::Automatic => 0,
            UtcStandardIdentifier::Usno => 3,
            UtcStandardIdentifier::UtcSu => 6,
            UtcStandardIdentifier::UtcChina => 7,
        }
    }

    /// Whether `x` is the raw value of some variant.
    pub fn is_valid(x: u8) -> (r: bool)
        ensures
            r == Self::spec_is_valid(x),
    {
        x == 0 || x == 3 || x == 6 || x == 7
    }

    /// The variant whose raw value is `x`.
    pub fn from_unchecked(x: u8) -> (r: UtcStandardIdentifier)
        requires
            Self::spec_is_valid(x),
        ensures
            r == Self::spec_from_raw(x),
            r.spec_into_raw() == x,
    {
        if x == 0 {
            UtcStandardIdentifier::Automatic
        } else if x == 3 {
            UtcStandardIdentifier::Usno
        } else if x == 6 {
            UtcStandardIdentifier::UtcSu
        } else if x == 7 {
            UtcStandardIdentifier::UtcChina
        } else {
            UtcStandardIdentifier::Automatic
        }
    }

    /// The raw value of this variant.
    pub fn into_raw(self) -> (r: u8)
        ensures
            r == self.spec_into_raw(),
    {
        match self {
            UtcStandardIdentifier::Automatic => 0,
            UtcStandardIdentifier::Usno => 3,
            UtcStandardIdentifier::UtcSu => 6,
            UtcStandardIdentifier::UtcChina => 7,
        }
    }

    /// The raw value of each variant is valid and maps back to the variant.
    pub proof fn lemma_raw_roundtrip(self)
        ensures
            Self::spec_is_valid(self.spec_into_raw()),
            Self::spec_from_raw(self.spec_into_raw()) == self,
    {
    }
}

impl Default for UtcStandardIdentifier {
    fn default() -> (r: Self)
        ensures
            r == UtcStandardIdentifier::Automatic,
    {
        UtcStandardIdentifier::Automatic
    }
}

/// Dynamic platform model of the navigation engine settings.
#[derive(Debug, Copy, Clone, PartialEq, Eq, Structural)]
pub enum CfgNav5DynModel {
    Portable,
    Stationary,
    Pedestrian,
    Automotive,
    Sea,
    AirborneWithLess1gAcceleration,
    AirborneWithLess2gAcceleration,
    AirborneWith4gAcceleration,
    WristWornWatch,
    Bike,
}

impl CfgNav5DynModel {
    /// Whether `x` is the raw value of some variant.
    pub open spec fn spec_is_valid(x: u8) -> bool {
        x == 0 || x == 2 || x == 3 || x == 4 || x == 5 || x == 6 || x == 7 || x == 8 || x == 9 || x == 10
    }

    /// The variant whose raw value is `x`.
    pub open spec fn spec_from_raw(x: u8) -> CfgNav5DynModel {
        if x == 0 {
            CfgNav5DynModel::Portable
        } else if x == 2 {
            CfgNav5DynModel::Stationary
        } else if x == 3 {
            CfgNav5DynModel::Pedestrian
        } else if x == 4 {
            CfgNav5DynModel::Automotive
        } else if x == 5 {
            CfgNav5DynModel::Sea
        } else if x == 6 {
            CfgNav5DynModel::AirborneWithLess1gAcceleration
        } else if x == 7 {
            CfgNav5DynModel::AirborneWithLess2gAcceleration
        } else if x == 8 {
            CfgNav5DynModel::AirborneWith4gAcceleration
        } else if x == 9 {
            CfgNav5DynModel::WristWornWatch
        } else if x == 10 {
            CfgNav5DynModel::Bike
        } else {
            CfgNav5DynModel::Portable
        }
    }

    /// The raw value of this variant.
    pub open spec fn spec_into_raw(self) -> u8 {
        match self {
            CfgNav5DynModel::Portable => 0,
            CfgNav5DynModel::Stationary => 2,
            CfgNav5DynModel::Pedestrian => 3,
            CfgNav5DynModel::Automotive => 4,
            CfgNav5DynModel::Sea => 5,
            CfgNav5DynModel::AirborneWithLess1gAcceleration => 6,
            CfgNav5DynModel::AirborneWithLess2gAcceleration => 7,
            CfgNav5DynModel::AirborneWith4gAcceleration => 8,
            CfgNav5DynModel::WristWornWatch => 9,
            CfgNav5DynModel::Bike => 10,
        }
    }

    /// Whether `x` is the raw value of some variant.
    pub fn is_valid(x: u8) -> (r: bool)
        ensures
            r == Self::spec_is_valid(x),
    {
        x == 0 || x == 2 || x == 3 || x == 4 || x == 5 || x == 6 || x == 7 || x == 8 || x == 9 || x == 10
    }

    /// The variant whose raw value is `x`.
    pub fn from_unchecked(x: u8) -> (r: CfgNav5DynModel)
        requires
            Self::spec_is_valid(x),
        ensures
            r == Self::spec_from_raw(x),
            r.spec_into_raw() == x,
    {
        if x == 0 {
            CfgNav5DynModel::Portable
        } else if x == 2 {
            CfgNav5DynModel::Stationary
        } else if x == 3 {
            CfgNav5DynModel::Pedestrian
        } else if x == 4 {
            CfgNav5DynModel::Automotive
        } else if x == 5 {
            CfgNav5DynModel::Sea
        } else if x == 6 {
            CfgNav5DynModel::AirborneWithLess1gAcceleration
        } else if x == 7 {
            CfgNav5DynModel::AirborneWithLess2gAcceleration
        } else if x == 8 {
            CfgNav5DynModel::AirborneWith4gAcceleration
        } else if x == 9 {
            CfgNav5DynModel::WristWornWatch
        } else if x == 10 {
            CfgNav5DynModel::Bike
        } else {
            CfgNav5DynModel::Portable
        }
    }

    /// The raw value of this variant.
    pub fn into_raw(self) -> (r: u8)
        ensures
            r == self.spec_into_raw(),
    {
        match self {
            CfgNav5DynModel::Portable => 0,
            CfgNav5DynModel::Stationary => 2,
            CfgNav5DynModel::Pedestrian => 3,
            CfgNav5DynModel::Automotive => 4,
            CfgNav5DynModel::Sea => 5,
            CfgNav5DynModel::AirborneWithLess1gAcceleration => 6,
            CfgNav5DynModel::AirborneWithLess2gAcceleration => 7,
            CfgNav5DynModel::AirborneWith4gAcceleration => 8,
            CfgNav5DynModel::WristWornWatch => 9,
            CfgNav5DynModel::Bike => 10,
        }
    }

    /// The raw value of each variant is valid and maps back to the variant.
    pub proof fn lemma_raw_roundtrip(self)
        ensures
            Self::spec_is_valid(self.spec_into_raw()),
            Self::spec_from_raw(self.spec_into_raw()) == self,
    {
    }
}

impl Default for CfgNav5DynModel {
    fn default() -> (r: Self)
        ensures
            r == CfgNav5DynModel::AirborneWith4gAcceleration,
    {
        CfgNav5DynModel::AirborneWith4gAcceleration
    }
}

/// Position fixing mode of the navigation engine settings.
#[derive(Debug, Copy, Clone, PartialEq, Eq, Structural)]
pub enum CfgNav5FixMode {
    Only2D,
    Only3D,
    Auto2D3D,
}

impl CfgNav5FixMode {
    /// Whether `x` is the raw value of some variant.
    pub open spec fn spec_is_valid(x: u8) -> bool {
        x == 1 || x == 2 || x == 3
    }

    /// The variant whose raw value is `x`.
    pub open spec fn spec_from_raw(x: u8) -> CfgNav5FixMode {
        if x == 1 {
            CfgNav5FixMode::Only2D
        } else if x == 2 {
            CfgNav5FixMode::Only3D
        } else if x == 3 {
            CfgNav5FixMode::Auto2D3D
        } else {
            CfgNav5FixMode::Only2D
        }
    }

    /// The raw value of this variant.
    pub open spec fn spec_into_raw(self) -> u8 {
        match self {
            CfgNav5FixMode::Only2D => 1,
            CfgNav5FixMode::Only3D => 2,
            CfgNav5FixMode::Auto2D3D => 3,
        }
    }

    /// Whether `x` is the raw value of some variant.
    pub fn is_valid(x: u8) -> (r: bool)
        ensures
            r == Self::spec_is_valid(x),
    {
        x == 1 || x == 2 || x == 3
    }

    /// The variant whose raw value is `x`.
    pub fn from_unchecked(x: u8) -> (r: CfgNav5FixMode)
        requires
            Self::spec_is_valid(x),
        ensures
            r == Self::spec_from_raw(x),
            r.spec_into_raw() == x,
    {
        if x == 1 {
            CfgNav5FixMode::Only2D
        } else if x == 2 {
            CfgNav5FixMode::Only3D
        } else if x == 3 {
            CfgNav5FixMode::Auto2D3D
        } else {
            CfgNav5FixMode::Only2D
        }
    }

    /// The raw value of this variant.
    pub fn into_raw(self) -> (r: u8)
        ensures
            r == self.spec_into_raw(),
    {
        match self {
            CfgNav5FixMode::Only2D => 1,
            CfgNav5FixMode::Only3D => 2,
            CfgNav5FixMode::Auto2D3D => 3,
        }
    }

    /// The raw value of each variant is valid and maps back to the variant.
    pub proof fn lemma_raw_roundtrip(self)
        ensures
            Self::spec_is_valid(self.spec_into_raw()),
            Self::spec_from_raw(self.spec_into_raw()) == self,
    {
    }
}

impl Default for CfgNav5FixMode {
    fn default() -> (r: Self)
        ensures
            r == CfgNav5FixMode::Auto2D3D,
    {
        CfgNav5FixMode::Auto2D3D
    }
}

/// UTC standard of the navigation engine settings.
#[derive(Debug, Copy, Clone, PartialEq, Eq, Structural)]
pub enum CfgNav5UtcStandard {
    Automatic,
    Usno,
    UtcSu,
    UtcChina,
}

impl CfgNav5UtcStandard {
    /// Whether `x` is the raw value of some variant.
    pub open spec fn spec_is_valid(x: u8) -> bool {
        x == 0 || x == 3 || x == 6 || x == 7
    }

    /// The variant whose raw value is `x`.
    pub open spec fn spec_from_raw(x: u8) -> CfgNav5UtcStandard {
        if x == 0 {
            CfgNav5UtcStandard::Automatic
        } else if x == 3 {
            CfgNav5UtcStandard::Usno
        } else if x == 6 {
            CfgNav5UtcStandard::UtcSu
        } else if x == 7 {
            CfgNav5UtcStandard::UtcChina
        } else {
            CfgNav5UtcStandard::Automatic
        }
    }

    /// The raw value of this variant.
    pub open spec fn spec_into_raw(self) -> u8 {
        match self {
            CfgNav5UtcStandard::Automatic => 0,
            CfgNav5UtcStandard::Usno => 3,
            CfgNav5UtcStandard::UtcSu => 6,
            CfgNav5UtcStandard::UtcChina => 7,
        }
    }

    /// Whether `x` is the raw value of some variant.
    pub fn is_valid(x: u8) -> (r: bool)
        ensures
            r == Self::spec_is_valid(x),
    {
        x == 0 || x == 3 || x == 6 || x == 7
    }

    /// The variant whose raw value is `x`.
    pub fn from_unchecked(x: u8) -> (r: CfgNav5UtcStandard)
        requires
            Self::spec_is_valid(x),
        ensures
            r == Self::spec_from_raw(x),
            r.spec_into_raw() == x,
    {
        if x == 0 {
            CfgNav5UtcStandard::Automatic
        } else if x == 3 {
            CfgNav5UtcStandard::Usno
        } else if x == 6 {
            CfgNav5UtcStandard::UtcSu
        } else if x == 7 {
            CfgNav5UtcStandard::UtcChina
        } else {
            CfgNav5UtcStandard::Automatic
        }
    }

    /// The raw value of this variant.
    pub fn into_raw(self) -> (r: u8)
        ensures
            r == self.spec_into_raw(),
    {
        match self {
            CfgNav5UtcStandard::Automatic => 0,
            CfgNav5UtcStandard::Usno => 3,
            CfgNav5UtcStandard::UtcSu => 6,
            CfgNav5UtcStandard::UtcChina => 7,
        }
    }

    /// The raw value of each variant is valid and maps back to the variant.
    pub proof fn lemma_raw_roundtrip(self)
        ensures
            Self::spec_is_valid(self.spec_into_raw()),
            Self::spec_from_raw(self.spec_into_raw()) == self,
    {
    }
}

impl Default for CfgNav5UtcStandard {
    fn default() -> (r: Self)
        ensures
            r == CfgNav5UtcStandard::Automatic,
    {
        CfgNav5UtcStandard::Automatic
    }
}

/// Odometer configuration profile.
#[derive(Debug, Copy, Clone, PartialEq, Eq, Structural)]
pub enum OdoProfile {
    Running,
    Cycling,
    Swimming,
    Car,
    Custom,
}

impl OdoProfile {
    /// Whether `x` is the raw value of some variant.
    pub open spec fn spec_is_valid(x: u8) -> bool {
        x == 0 || x == 1 || x == 2 || x == 3 || x == 4
    }

    /// The variant whose raw value is `x`.
    pub open spec fn spec_from_raw(x: u8) -> OdoProfile {
        if x == 0 {
            OdoProfile::Running
        } else if x == 1 {
            OdoProfile::Cycling
        } else if x == 2 {
            OdoProfile::Swimming
        } else if x == 3 {
            OdoProfile::Car
        } else if x == 4 {
            OdoProfile::Custom
        } else {
            OdoProfile::Running
        }
    }

    /// The raw value of this variant.
    pub open spec fn spec_into_raw(self) -> u8 {
        match self {
            OdoProfile::Running => 0,
            OdoProfile::Cycling => 1,
            OdoProfile::Swimming => 2,
            OdoProfile::Car => 3,
            OdoProfile::Custom => 4,
        }
    }

    /// Whether `x` is the raw value of some variant.
    pub fn is_valid(x: u8) -> (r: bool)
        ensures
            r == Self::spec_is_valid(x),
    {
        x == 0 || x == 1 || x == 2 || x == 3 || x == 4
    }

    /// The variant whose raw value is `x`.
    pub fn from_unchecked(x: u8) -> (r: OdoProfile)
        requires
            Self::spec_is_valid(x),
        ensures
            r == Self::spec_from_raw(x),
            r.spec_into_raw() == x,
    {
        if x == 0 {
            OdoProfile::Running
        } else if x == 1 {
            OdoProfile::Cycling
        } else if x == 2 {
            OdoProfile::Swimming
        } else if x == 3 {
            OdoProfile::Car
        } else if x == 4 {
            OdoProfile::Custom
        } else {
            OdoProfile::Running
        }
    }

    /// The raw value of this variant.
    pub fn into_raw(self) -> (r: u8)
        ensures
            r == self.spec_into_raw(),
    {
        match self {
            OdoProfile::Running => 0,
            OdoProfile::Cycling => 1,
            OdoProfile::Swimming => 2,
            OdoProfile::Car => 3,
            OdoProfile::Custom => 4,
        }
    }

    /// The raw value of each variant is valid and maps back to the variant.
    pub proof fn lemma_raw_roundtrip(self)
        ensures
            Self::spec_is_valid(self.spec_into_raw()),
            Self::spec_from_raw(self.spec_into_raw()) == self,
    {
    }
}

impl Default for OdoProfile {
    fn default() -> (r: Self)
        ensures
            r == OdoProfile::Running,
    {
        OdoProfile::Running
    }
}

/// Port identifier number (1 or 2 for UART ports, 3 for USB).
#[derive(Debug, Copy, Clone, PartialEq, Eq, Structural)]
pub enum UartPortId {
    Uart1,
    Uart2,
    Usb,
}

impl UartPortId {
    /// Whether `x` is the raw value of some variant.
    pub open spec fn spec_is_valid(x: u8) -> bool {
        x == 1 || x == 2 || x == 3
    }

    /// The variant whose raw value is `x`.
    pub open spec fn spec_from_raw(x: u8) -> UartPortId {
        if x == 1 {
            UartPortId::Uart1
        } else if x == 2 {
            UartPortId::Uart2
        } else if x == 3 {
            UartPortId::Usb
        } else {
            UartPortId::Uart1
        }
    }

    /// The raw value of this variant.
    pub open spec fn spec_into_raw(self) -> u8 {
        match self {
            UartPortId::Uart1 => 1,
            UartPortId::Uart2 => 2,
            UartPortId::Usb => 3,
        }
    }

    /// Whether `x` is the raw value of some variant.
    pub fn is_valid(x: u8) -> (r: bool)
        ensures
            r == Self::spec_is_valid(x),
    {
        x == 1 || x == 2 || x == 3
    }

    /// The variant whose raw value is `x`.
    pub fn from_unchecked(x: u8) -> (r: UartPortId)
        requires
            Self::spec_is_valid(x),
        ensures
            r == Self::spec_from_raw(x),
            r.spec_into_raw() == x,
    {
        if x == 1 {
            UartPortId::Uart1
        } else if x == 2 {
            UartPortId::Uart2
        } else if x == 3 {
            UartPortId::Usb
        } else {
            UartPortId::Uart1
        }
    }

    /// The raw value of this variant.
    pub fn into_raw(self) -> (r: u8)
        ensures
            r == self.spec_into_raw(),
    {
        match self {
            UartPortId::Uart1 => 1,
            UartPortId::Uart2 => 2,
            UartPortId::Usb => 3,
        }
    }

    /// The raw value of each variant is valid and maps back to the variant.
    pub proof fn lemma_raw_roundtrip(self)
        ensures
            Self::spec_is_valid(self.spec_into_raw()),
            Self::spec_from_raw(self.spec_into_raw()) == self,
    {
    }
}

/// Port identifier number (4 for the SPI port).
#[derive(Debug, Copy, Clone, PartialEq, Eq, Structural)]
pub enum SpiPortId {
    Spi,
}

impl SpiPortId {
    /// Whether `x` is the raw value of some variant.
    pub open spec fn spec_is_valid(x: u8) -> bool {
        x == 4
    }

    /// The variant whose raw value is `x`.
    pub open spec fn spec_from_raw(x: u8) -> SpiPortId {
        if x == 4 {
            SpiPortId::Spi

        } else {
            SpiPortId::Spi
        }
    }

    /// The raw value of this variant.
    pub open spec fn spec_into_raw(self) -> u8 {
        match self {
            SpiPortId::Spi => 4,
        }
    }

    /// Whether `x` is the raw value of some variant.
    pub fn is_valid(x: u8) -> (r: bool)
        ensures
            r == Self::spec_is_valid(x),
    {
        x == 4
    }

    /// The variant whose raw value is `x`.
    pub fn from_unchecked(x: u8) -> (r: SpiPortId)
        requires
            Self::spec_is_valid(x),
        ensures
            r == Self::spec_from_raw(x),
            r.spec_into_raw() == x,
    {
        if x == 4 {
            SpiPortId::Spi

        } else {
            SpiPortId::Spi
        }
    }

    /// The raw value of this variant.
    pub fn into_raw(self) -> (r: u8)
        ensures
            r == self.spec_into_raw(),
    {
        match self {
            SpiPortId::Spi => 4,
        }
    }

    /// The raw value of each variant is valid and maps back to the variant.
    pub proof fn lemma_raw_roundtrip(self)
        ensures
            Self::spec_is_valid(self.spec_into_raw()),
            Self::spec_from_raw(self.spec_into_raw()) == self,
    {
    }
}

impl Default for SpiPortId {
    fn default() -> (r: Self)
        ensures
            r == SpiPortId::Spi,
    {
        SpiPortId::Spi
    }
}

/// Port identifier number (0 for I2C ports).
#[derive(Debug, Copy, Clone, PartialEq, Eq, Structural)]
pub enum I2cPortId {
    I2c,
}

impl I2cPortId {
    /// Whether `x` is the raw value of some variant.
    pub open spec fn spec_is_valid(x: u8) -> bool {
        x == 0
    }

    /// The variant whose raw value is `x`.
    pub open spec fn spec_from_raw(x: u8) -> I2cPortId {
        if x == 0 {
            I2cPortId::I2c

        } else {
            I2cPortId::I2c
        }
    }

    /// The raw value of this variant.
    pub open spec fn spec_into_raw(self) -> u8 {
        match self {
            I2cPortId::I2c => 0,
        }
    }

    /// Whether `x` is the raw value of some variant.
    pub fn is_valid(x: u8) -> (r: bool)
        ensures
            r == Self::spec_is_valid(x),
    {
        x == 0
    }

    /// The variant whose raw value is `x`.
    pub fn from_unchecked(x: u8) -> (r: I2cPortId)
        requires
            Self::spec_is_valid(x),
        ensures
            r == Self::spec_from_raw(x),
            r.spec_into_raw() == x,
    {
        if x == 0 {
            I2cPortId::I2c

        } else {
            I2cPortId::I2c
        }
    }

    /// The raw value of this variant.
    pub fn into_raw(self) -> (r: u8)
        ensures
            r == self.spec_into_raw(),
    {
        match self {
            I2cPortId::I2c => 0,
        }
    }

    /// The raw value of each variant is valid and maps back to the variant.
    pub proof fn lemma_raw_roundtrip(self)
        ensures
            Self::spec_is_valid(self.spec_into_raw()),
            Self::spec_from_raw(self.spec_into_raw()) == self,
    {
    }
}

impl Default for I2cPortId {
    fn default() -> (r: Self)
        ensures
            r == I2cPortId::I2c,
    {
        I2cPortId::I2c
    }
}

/// Antenna settings that help the interference monitoring module.
#[derive(Debug, Copy, Clone, PartialEq, Eq, Structural)]
pub enum CfgItfmAntennaSettings {
    Unknown,
    Active,
    Passive,
}

impl CfgItfmAntennaSettings {
    /// Whether `x` is the raw value of some variant.
    pub open spec fn spec_is_valid(x: u8) -> bool {
        x == 0 || x == 1 || x == 2
    }

    /// The variant whose raw value is `x`.
    pub open spec fn spec_from_raw(x: u8) -> CfgItfmAntennaSettings {
        if x == 0 {
            CfgItfmAntennaSettings::Unknown
        } else if x == 1 {
            CfgItfmAntennaSettings::Active
        } else if x == 2 {
            CfgItfmAntennaSettings::Passive
        } else {
            CfgItfmAntennaSettings::Unknown
        }
    }

    /// The raw value of this variant.
    pub open spec fn spec_into_raw(self) -> u8 {
        match self {
            CfgItfmAntennaSettings::Unknown => 0,
            CfgItfmAntennaSettings::Active => 1,
            CfgItfmAntennaSettings::Passive => 2,
        }
    }

    /// Whether `x` is the raw value of some variant.
    pub fn is_valid(x: u8) -> (r: bool)
        ensures
            r == Self::spec_is_valid(x),
    {
        x == 0 || x == 1 || x == 2
    }

    /// The variant whose raw value is `x`.
    pub fn from_unchecked(x: u8) -> (r: CfgItfmAntennaSettings)
        requires
            Self::spec_is_valid(x),
        ensures
            r == Self::spec_from_raw(x),
            r.spec_into_raw() == x,
    {
        if x == 0 {
            CfgItfmAntennaSettings::Unknown
        } else if x == 1 {
            CfgItfmAntennaSettings::Active
        } else if x == 2 {
            CfgItfmAntennaSettings::Passive
        } else {
            CfgItfmAntennaSettings::Unknown
        }
    }

    /// The raw value of this variant.
    pub fn into_raw(self) -> (r: u8)
        ensures
            r == self.spec_into_raw(),
    {
        match self {
            CfgItfmAntennaSettings::Unknown => 0,
            CfgItfmAntennaSettings::Active => 1,
            CfgItfmAntennaSettings::Passive => 2,
        }
    }

    /// The raw value of each variant is valid and maps back to the variant.
    pub proof fn lemma_raw_roundtrip(self)
        ensures
            Self::spec_is_valid(self.spec_into_raw()),
            Self::spec_from_raw(self.spec_into_raw()) == self,
    {
    }
}

impl Default for CfgItfmAntennaSettings {
    fn default() -> (r: Self)
        ensures
            r == CfgItfmAntennaSettings::Unknown,
    {
        CfgItfmAntennaSettings::Unknown
    }
}

/// Alignment of measurements to a reference time.
#[derive(Debug, Copy, Clone, PartialEq, Eq, Structural)]
pub enum AlignmentToReferenceTime {
    Utc,
    Gps,
    Glo,
    Bds,
    Gal,
}

impl AlignmentToReferenceTime {
    /// Whether `x` is the raw value of some variant.
    pub open spec fn spec_is_valid(x: u8) -> bool {
        x == 0 || x == 1 || x == 2 || x == 3 || x == 4
    }

    /// The variant whose raw value is `x`.
    pub open spec fn spec_from_raw(x: u8) -> AlignmentToReferenceTime {
        if x == 0 {
            AlignmentToReferenceTime::Utc
        } else if x == 1 {
            AlignmentToReferenceTime::Gps
        } else if x == 2 {
            AlignmentToReferenceTime::Glo
        } else if x == 3 {
            AlignmentToReferenceTime::Bds
        } else if x == 4 {
            AlignmentToReferenceTime::Gal
        } else {
            AlignmentToReferenceTime::Utc
        }
    }

    /// The raw value of this variant.
    pub open spec fn spec_into_raw(self) -> u8 {
        match self {
            AlignmentToReferenceTime::Utc => 0,
            AlignmentToReferenceTime::Gps => 1,
            AlignmentToReferenceTime::Glo => 2,
            AlignmentToReferenceTime::Bds => 3,
            AlignmentToReferenceTime::Gal => 4,
        }
    }

    /// Whether `x` is the raw value of some variant.
    pub fn is_valid(x: u8) -> (r: bool)
        ensures
            r == Self::spec_is_valid(x),
    {
        x == 0 || x == 1 || x == 2 || x == 3 || x == 4
    }

    /// The variant whose raw value is `x`.
    pub fn from_unchecked(x: u8) -> (r: AlignmentToReferenceTime)
        requires
            Self::spec_is_valid(x),
        ensures
            r == Self::spec_from_raw(x),
            r.spec_into_raw() == x,
    {
        if x == 0 {
            AlignmentToReferenceTime::Utc
        } else if x == 1 {
            AlignmentToReferenceTime::Gps
        } else if x == 2 {
            AlignmentToReferenceTime::Glo
        } else if x == 3 {
            AlignmentToReferenceTime::Bds
        } else if x == 4 {
            AlignmentToReferenceTime::Gal
        } else {
            AlignmentToReferenceTime::Utc
        }
    }

    /// The raw value of this variant.
    pub fn into_raw(self) -> (r: u8)
        ensures
            r == self.spec_into_raw(),
    {
        match self {
            AlignmentToReferenceTime::Utc => 0,
            AlignmentToReferenceTime::Gps => 1,
            AlignmentToReferenceTime::Glo => 2,
            AlignmentToReferenceTime::Bds => 3,
            AlignmentToReferenceTime::Gal => 4,
        }
    }

    /// The raw value of each variant is valid and maps back to the variant.
    pub proof fn lemma_raw_roundtrip(self)
        ensures
            Self::spec_is_valid(self.spec_into_raw()),
            Self::spec_from_raw(self.spec_into_raw()) == self,
    {
    }
}

impl Default for AlignmentToReferenceTime {
    fn default() -> (r: Self)
        ensures
            r == AlignmentToReferenceTime::Gps,
    {
        AlignmentToReferenceTime::Gps
    }
}

/// Time mode.
#[derive(Debug, Copy, Clone, PartialEq, Eq, Structural)]
pub enum CfgTModeModes {
    Disabled,
    SurveyIn,
    Fixed,
}

impl CfgTModeModes {
    /// Whether `x` is the raw value of some variant.
    pub open spec fn spec_is_valid(x: u8) -> bool {
        x == 0 || x == 1 || x == 2
    }

    /// The variant whose raw value is `x`.
    pub open spec fn spec_from_raw(x: u8) -> CfgTModeModes {
        if x == 0 {
            CfgTModeModes::Disabled
        } else if x == 1 {
            CfgTModeModes::SurveyIn
        } else if x == 2 {
            CfgTModeModes::Fixed
        } else {
            CfgTModeModes::Disabled
        }
    }

    /// The raw value of this variant.
    pub open spec fn spec_into_raw(self) -> u8 {
        match self {
            CfgTModeModes::Disabled => 0,
            CfgTModeModes::SurveyIn => 1,
            CfgTModeModes::Fixed => 2,
        }
    }

    /// Whether `x` is the raw value of some variant.
    pub fn is_valid(x: u8) -> (r: bool)
        ensures
            r == Self::spec_is_valid(x),
    {
        x == 0 || x == 1 || x == 2
    }

    /// The variant whose raw value is `x`.
    pub fn from_unchecked(x: u8) -> (r: CfgTModeModes)
        requires
            Self::spec_is_valid(x),
        ensures
            r == Self::spec_from_raw(x),
            r.spec_into_raw() == x,
    {
        if x == 0 {
            CfgTModeModes::Disabled
        } else if x == 1 {
            CfgTModeModes::SurveyIn
        } else if x == 2 {
            CfgTModeModes::Fixed
        } else {
            CfgTModeModes::Disabled
        }
    }

    /// The raw value of this variant.
    pub fn into_raw(self) -> (r: u8)
        ensures
            r == self.spec_into_raw(),
    {
        match self {
            CfgTModeModes::Disabled => 0,
            CfgTModeModes::SurveyIn => 1,
            CfgTModeModes::Fixed => 2,
        }
    }

    /// The raw value of each variant is valid and maps back to the variant.
    pub proof fn lemma_raw_roundtrip(self)
        ensures
            Self::spec_is_valid(self.spec_into_raw()),
            Self::spec_from_raw(self.spec_into_raw()) == self,
    {
    }
}

impl Default for CfgTModeModes {
    fn default() -> (r: Self)
        ensures
            r == CfgTModeModes::Disabled,
    {
        CfgTModeModes::Disabled
    }
}

/// Time pulse selection.
#[derive(Debug, Copy, Clone, PartialEq, Eq, Structural)]
pub enum CfgTp5TimePulseMode {
    TimePulse,
    TimePulse2,
}

impl CfgTp5TimePulseMode {
    /// Whether `x` is the raw value of some variant.
    pub open spec fn spec_is_valid(x: u8) -> bool {
        x == 0 || x == 1
    }

    /// The variant whose raw value is `x`.
    pub open spec fn spec_from_raw(x: u8) -> CfgTp5TimePulseMode {
        if x == 0 {
            CfgTp5TimePulseMode::TimePulse
        } else if x == 1 {
            CfgTp5TimePulseMode::TimePulse2
        } else {
            CfgTp5TimePulseMode::TimePulse
        }
    }

    /// The raw value of this variant.
    pub open spec fn spec_into_raw(self) -> u8 {
        match self {
            CfgTp5TimePulseMode::TimePulse => 0,
            CfgTp5TimePulseMode::TimePulse2 => 1,
        }
    }

    /// Whether `x` is the raw value of some variant.
    pub fn is_valid(x: u8) -> (r: bool)
        ensures
            r == Self::spec_is_valid(x),
    {
        x == 0 || x == 1
    }

    /// The variant whose raw value is `x`.
    pub fn from_unchecked(x: u8) -> (r: CfgTp5TimePulseMode)
        requires
            Self::spec_is_valid(x),
        ensures
            r == Self::spec_from_raw(x),
            r.spec_into_raw() == x,
    {
        if x == 0 {
            CfgTp5TimePulseMode::TimePulse
        } else if x == 1 {
            CfgTp5TimePulseMode::TimePulse2
        } else {
            CfgTp5TimePulseMode::TimePulse
        }
    }

    /// The raw value of this variant.
    pub fn into_raw(self) -> (r: u8)
        ensures
            r == self.spec_into_raw(),
    {
        match self {
            CfgTp5TimePulseMode::TimePulse => 0,
            CfgTp5TimePulseMode::TimePulse2 => 1,
        }
    }

    /// The raw value of each variant is valid and maps back to the variant.
    pub proof fn lemma_raw_roundtrip(self)
        ensures
            Self::spec_is_valid(self.spec_into_raw()),
            Self::spec_from_raw(self.spec_into_raw()) == self,
    {
    }
}

impl Default for CfgTp5TimePulseMode {
    fn default() -> (r: Self)
        ensures
            r == CfgTp5TimePulseMode::TimePulse,
    {
        CfgTp5TimePulseMode::TimePulse
    }
}

/// Whether the time pulse is given by period or frequency.
#[derive(Debug, Copy, Clone, PartialEq, Eq, Structural)]
pub enum TpPulse {
    Period,
    Freq,
}

impl TpPulse {
    /// Whether `x` is the raw value of some variant.
    pub open spec fn spec_is_valid(x: u8) -> bool {
        x == 0 || x == 1
    }

    /// The variant whose raw value is `x`.
    pub open spec fn spec_from_raw(x: u8) -> TpPulse {
        if x == 0 {
            TpPulse::Period
        } else if x == 1 {
            TpPulse::Freq
        } else {
            TpPulse::Period
        }
    }

    /// The raw value of this variant.
    pub open spec fn spec_into_raw(self) -> u8 {
        match self {
            TpPulse::Period => 0,
            TpPulse::Freq => 1,
        }
    }

    /// Whether `x` is the raw value of some variant.
    pub fn is_valid(x: u8) -> (r: bool)
        ensures
            r == Self::spec_is_valid(x),
    {
        x == 0 || x == 1
    }

    /// The variant whose raw value is `x`.
    pub fn from_unchecked(x: u8) -> (r: TpPulse)
        requires
            Self::spec_is_valid(x),
        ensures
            r == Self::spec_from_raw(x),
            r.spec_into_raw() == x,
    {
        if x == 0 {
            TpPulse::Period
        } else if x == 1 {
            TpPulse::Freq
        } else {
            TpPulse::Period
        }
    }

    /// The raw value of this variant.
    pub fn into_raw(self) -> (r: u8)
        ensures
            r == self.spec_into_raw(),
    {
        match self {
            TpPulse::Period => 0,
            TpPulse::Freq => 1,
        }
    }

    /// The raw value of each variant is valid and maps back to the variant.
    pub proof fn lemma_raw_roundtrip(self)
        ensures
            Self::spec_is_valid(self.spec_into_raw()),
            Self::spec_from_raw(self.spec_into_raw()) == self,
    {
    }
}

/// Whether the pulse length is a ratio or a length.
#[derive(Debug, Copy, Clone, PartialEq, Eq, Structural)]
pub enum TpPulseLength {
    Ratio,
    Length,
}

impl TpPulseLength {
    /// Whether `x` is the raw value of some variant.
    pub open spec fn spec_is_valid(x: u8) -> bool {
        x == 0 || x == 1
    }

    /// The variant whose raw value is `x`.
    pub open spec fn spec_from_raw(x: u8) -> TpPulseLength {
        if x == 0 {
            TpPulseLength::Ratio
        } else if x == 1 {
            TpPulseLength::Length
        } else {
            TpPulseLength::Ratio
        }
    }

    /// The raw value of this variant.
    pub open spec fn spec_into_raw(self) -> u8 {
        match self {
            TpPulseLength::Ratio => 0,
            TpPulseLength::Length => 1,
        }
    }

    /// Whether `x` is the raw value of some variant.
    pub fn is_valid(x: u8) -> (r: bool)
        ensures
            r == Self::spec_is_valid(x),
    {
        x == 0 || x == 1
    }

    /// The variant whose raw value is `x`.
    pub fn from_unchecked(x: u8) -> (r: TpPulseLength)
        requires
            Self::spec_is_valid(x),
        ensures
            r == Self::spec_from_raw(x),
            r.spec_into_raw() == x,
    {
        if x == 0 {
            TpPulseLength::Ratio
        } else if x == 1 {
            TpPulseLength::Length
        } else {
            TpPulseLength::Ratio
        }
    }

    /// The raw value of this variant.
    pub fn into_raw(self) -> (r: u8)
        ensures
            r == self.spec_into_raw(),
    {
        match self {
            TpPulseLength::Ratio => 0,
            TpPulseLength::Length => 1,
        }
    }

    /// The raw value of each variant is valid and maps back to the variant.
    pub proof fn lemma_raw_roundtrip(self)
        ensures
            Self::spec_is_valid(self.spec_into_raw()),
            Self::spec_from_raw(self.spec_into_raw()) == self,
    {
    }
}

/// Receiver position type in time mode.
#[derive(Debug, Copy, Clone, PartialEq, Eq, Structural)]
pub enum TModePosType {
    ECEF,
    LLH,
}

impl TModePosType {
    /// Whether `x` is the raw value of some variant.
    pub open spec fn spec_is_valid(x: u8) -> bool {
        x == 0 || x == 1
    }

    /// The variant whose raw value is `x`.
    pub open spec fn spec_from_raw(x: u8) -> TModePosType {
        if x == 0 {
            TModePosType::ECEF
        } else if x == 1 {
            TModePosType::LLH
        } else {
            TModePosType::ECEF
        }
    }

    /// The raw value of this variant.
    pub open spec fn spec_into_raw(self) -> u8 {
        match self {
            TModePosType::ECEF => 0,
            TModePosType::LLH => 1,
        }
    }

    /// Whether `x` is the raw value of some variant.
    pub fn is_valid(x: u8) -> (r: bool)
        ensures
            r == Self::spec_is_valid(x),
    {
        x == 0 || x == 1
    }

    /// The variant whose raw value is `x`.
    pub fn from_unchecked(x: u8) -> (r: TModePosType)
        requires
            Self::spec_is_valid(x),
        ensures
            r == Self::spec_from_raw(x),
            r.spec_into_raw() == x,
    {
        if x == 0 {
            TModePosType::ECEF
        } else if x == 1 {
            TModePosType::LLH
        } else {
            TModePosType::ECEF
        }
    }

    /// The raw value of this variant.
    pub fn into_raw(self) -> (r: u8)
        ensures
            r == self.spec_into_raw(),
    {
        match self {
            TModePosType::ECEF => 0,
            TModePosType::LLH => 1,
        }
    }

    /// The raw value of each variant is valid and maps back to the variant.
    pub proof fn lemma_raw_roundtrip(self)
        ensures
            Self::spec_is_valid(self.spec_into_raw()),
            Self::spec_from_raw(self.spec_into_raw()) == self,
    {
    }
}

/// Type of reset.
#[derive(Debug, Copy, Clone, PartialEq, Eq, Structural)]
pub enum ResetMode {
    HardwareResetImmediately,
    ControlledSoftwareReset,
    ControlledSoftwareResetGpsOnly,
    HardwareResetAfterShutdown,
    ControlledGpsStop,
    ControlledGpsStart,
}

impl ResetMode {
    /// Whether `x` is the raw value of some variant.
    pub open spec fn spec_is_valid(x: u8) -> bool {
        x == 0 || x == 1 || x == 2 || x == 4 || x == 8 || x == 9
    }

    /// The variant whose raw value is `x`.
    pub open spec fn spec_from_raw(x: u8) -> ResetMode {
        if x == 0 {
            ResetMode::HardwareResetImmediately
        } else if x == 1 {
            ResetMode::ControlledSoftwareReset
        } else if x == 2 {
            ResetMode::ControlledSoftwareResetGpsOnly
        } else if x == 4 {
            ResetMode::HardwareResetAfterShutdown
        } else if x == 8 {
            ResetMode::ControlledGpsStop
        } else if x == 9 {
            ResetMode::ControlledGpsStart
        } else {
            ResetMode::HardwareResetImmediately
        }
    }

    /// The raw value of this variant.
    pub open spec fn spec_into_raw(self) -> u8 {
        match self {
            ResetMode::HardwareResetImmediately => 0,
            ResetMode::ControlledSoftwareReset => 1,
            ResetMode::ControlledSoftwareResetGpsOnly => 2,
            ResetMode::HardwareResetAfterShutdown => 4,
            ResetMode::ControlledGpsStop => 8,
            ResetMode::ControlledGpsStart => 9,
        }
    }

    /// Whether `x` is the raw value of some variant.
    pub fn is_valid(x: u8) -> (r: bool)
        ensures
            r == Self::spec_is_valid(x),
    {
        x == 0 || x == 1 || x == 2 || x == 4 || x == 8 || x == 9
    }

    /// The variant whose raw value is `x`.
    pub fn from_unchecked(x: u8) -> (r: ResetMode)
        requires
            Self::spec_is_valid(x),
        ensures
            r == Self::spec_from_raw(x),
            r.spec_into_raw() == x,
    {
        if x == 0 {
            ResetMode::HardwareResetImmediately
        } else if x == 1 {
            ResetMode::ControlledSoftwareReset
        } else if x == 2 {
            ResetMode::ControlledSoftwareResetGpsOnly
        } else if x == 4 {
            ResetMode::HardwareResetAfterShutdown
        } else if x == 8 {
            ResetMode::ControlledGpsStop
        } else if x == 9 {
            ResetMode::ControlledGpsStart
        } else {
            ResetMode::HardwareResetImmediately
        }
    }

    /// The raw value of this variant.
    pub fn into_raw(self) -> (r: u8)
        ensures
            r == self.spec_into_raw(),
    {
        match self {
            ResetMode::HardwareResetImmediately => 0,
            ResetMode::ControlledSoftwareReset => 1,
            ResetMode::ControlledSoftwareResetGpsOnly => 2,
            ResetMode::HardwareResetAfterShutdown => 4,
            ResetMode::ControlledGpsStop => 8,
            ResetMode::ControlledGpsStart => 9,
        }
    }

    /// The raw value of each variant is valid and maps back to the variant.
    pub proof fn lemma_raw_roundtrip(self)
        ensures
            Self::spec_is_valid(self.spec_into_raw()),
            Self::spec_from_raw(self.spec_into_raw()) == self,
    {
    }
}

/// GPS fix type.
#[derive(Debug, Copy, Clone, PartialEq, Eq, Structural)]
pub enum GpsFix {
    NoFix,
    DeadReckoningOnly,
    Fix2D,
    Fix3D,
    GPSPlusDeadReckoning,
    TimeOnlyFix,
    /// A value the protocol reserves.
    Reserved(u8),
}

impl GpsFix {
    /// The variant whose raw value is `x`.
    pub open spec fn spec_from(x: u8) -> GpsFix {
        if x == 0 {
            GpsFix::NoFix
        } else if x == 1 {
            GpsFix::DeadReckoningOnly
        } else if x == 2 {
            GpsFix::Fix2D
        } else if x == 3 {
            GpsFix::Fix3D
        } else if x == 4 {
            GpsFix::GPSPlusDeadReckoning
        } else if x == 5 {
            GpsFix::TimeOnlyFix
        } else {
            GpsFix::Reserved(x)
        }
    }

    /// The raw value of this variant.
    pub open spec fn spec_into_raw(self) -> u8 {
        match self {
            GpsFix::NoFix => 0,
            GpsFix::DeadReckoningOnly => 1,
            GpsFix::Fix2D => 2,
            GpsFix::Fix3D => 3,
            GpsFix::GPSPlusDeadReckoning => 4,
            GpsFix::TimeOnlyFix => 5,
            GpsFix::Reserved(x) => x,
        }
    }

    /// The variant whose raw value is `x`.
    pub fn from(x: u8) -> (r: GpsFix)
        ensures
            r == Self::spec_from(x),
            r.spec_into_raw() == x,
    {
        if x == 0 {
            GpsFix::NoFix
        } else if x == 1 {
            GpsFix::DeadReckoningOnly
        } else if x == 2 {
            GpsFix::Fix2D
        } else if x == 3 {
            GpsFix::Fix3D
        } else if x == 4 {
            GpsFix::GPSPlusDeadReckoning
        } else if x == 5 {
            GpsFix::TimeOnlyFix
        } else {
            GpsFix::Reserved(x)
        }
    }

    /// The raw value of this variant.
    pub fn into_raw(self) -> (r: u8)
        ensures
            r == self.spec_into_raw(),
    {
        match self {
            GpsFix::NoFix => 0,
            GpsFix::DeadReckoningOnly => 1,
            GpsFix::Fix2D => 2,
            GpsFix::Fix3D => 3,
            GpsFix::GPSPlusDeadReckoning => 4,
            GpsFix::TimeOnlyFix => 5,
            GpsFix::Reserved(x) => x,
        }
    }
}

/// GNSS fix type.
#[derive(Debug, Copy, Clone, PartialEq, Eq, Structural)]
pub enum GnssFixType {
    NoFix,
    DeadReckoningOnly,
    Fix2D,
    Fix3D,
    GPSPlusDeadReckoning,
    TimeOnlyFix,
    /// A value the protocol reserves.
    Reserved(u8),
}

impl GnssFixType {
    /// The variant whose raw value is `x`.
    pub open spec fn spec_from(x: u8) -> GnssFixType {
        if x == 0 {
            GnssFixType::NoFix
        } else if x == 1 {
            GnssFixType::DeadReckoningOnly
        } else if x == 2 {
            GnssFixType::Fix2D
        } else if x == 3 {
            GnssFixType::Fix3D
        } else if x == 4 {
            GnssFixType::GPSPlusDeadReckoning
        } else if x == 5 {
            GnssFixType::TimeOnlyFix
        } else {
            GnssFixType::Reserved(x)
        }
    }

    /// The raw value of this variant.
    pub open spec fn spec_into_raw(self) -> u8 {
        match self {
            GnssFixType::NoFix => 0,
            GnssFixType::DeadReckoningOnly => 1,
            GnssFixType::Fix2D => 2,
            GnssFixType::Fix3D => 3,
            GnssFixType::GPSPlusDeadReckoning => 4,
            GnssFixType::TimeOnlyFix => 5,
            GnssFixType::Reserved(x) => x,
        }
    }

    /// The variant whose raw value is `x`.
    pub fn from(x: u8) -> (r: GnssFixType)
        ensures
            r == Self::spec_from(x),
            r.spec_into_raw() == x,
    {
        if x == 0 {
            GnssFixType::NoFix
        } else if x == 1 {
            GnssFixType::DeadReckoningOnly
        } else if x == 2 {
            GnssFixType::Fix2D
        } else if x == 3 {
            GnssFixType::Fix3D
        } else if x == 4 {
            GnssFixType::GPSPlusDeadReckoning
        } else if x == 5 {
            GnssFixType::TimeOnlyFix
        } else {
            GnssFixType::Reserved(x)
        }
    }

    /// The raw value of this variant.
    pub fn into_raw(self) -> (r: u8)
        ensures
            r == self.spec_into_raw(),
    {
        match self {
            GnssFixType::NoFix => 0,
            GnssFixType::DeadReckoningOnly => 1,
            GnssFixType::Fix2D => 2,
            GnssFixType::Fix3D => 3,
            GnssFixType::GPSPlusDeadReckoning => 4,
            GnssFixType::TimeOnlyFix => 5,
            GnssFixType::Reserved(x) => x,
        }
    }
}

/// Antenna supervisor state.
#[derive(Debug, Copy, Clone, PartialEq, Eq, Structural)]
pub enum AntennaStatus {
    Init,
    DontKnow,
    AntennaOk,
    Short,
    Open,
    /// A value the protocol reserves.
    Reserved(u8),
}

impl AntennaStatus {
    /// The variant whose raw value is `x`.
    pub open spec fn spec_from(x: u8) -> AntennaStatus {
        if x == 0 {
            AntennaStatus::Init
        } else if x == 1 {
            AntennaStatus::DontKnow
        } else if x == 2 {
            AntennaStatus::AntennaOk
        } else if x == 3 {
            AntennaStatus::Short
        } else if x == 4 {
            AntennaStatus::Open
        } else {
            AntennaStatus::Reserved(x)
        }
    }

    /// The raw value of this variant.
    pub open spec fn spec_into_raw(self) -> u8 {
        match self {
            AntennaStatus::Init => 0,
            AntennaStatus::DontKnow => 1,
            AntennaStatus::AntennaOk => 2,
            AntennaStatus::Short => 3,
            AntennaStatus::Open => 4,
            AntennaStatus::Reserved(x) => x,
        }
    }

    /// The variant whose raw value is `x`.
    pub fn from(x: u8) -> (r: AntennaStatus)
        ensures
            r == Self::spec_from(x),
            r.spec_into_raw() == x,
    {
        if x == 0 {
            AntennaStatus::Init
        } else if x == 1 {
            AntennaStatus::DontKnow
        } else if x == 2 {
            AntennaStatus::AntennaOk
        } else if x == 3 {
            AntennaStatus::Short
        } else if x == 4 {
            AntennaStatus::Open
        } else {
            AntennaStatus::Reserved(x)
        }
    }

    /// The raw value of this variant.
    pub fn into_raw(self) -> (r: u8)
        ensures
            r == self.spec_into_raw(),
    {
        match self {
            AntennaStatus::Init => 0,
            AntennaStatus::DontKnow => 1,
            AntennaStatus::AntennaOk => 2,
            AntennaStatus::Short => 3,
            AntennaStatus::Open => 4,
            AntennaStatus::Reserved(x) => x,
        }
    }
}

/// Antenna power state.
#[derive(Debug, Copy, Clone, PartialEq, Eq, Structural)]
pub enum AntennaPower {
    Off,
    On,
    DontKnow,
    /// A value the protocol reserves.
    Reserved(u8),
}

impl AntennaPower {
    /// The variant whose raw value is `x`.
    pub open spec fn spec_from(x: u8) -> AntennaPower {
        if x == 0 {
            AntennaPower::Off
        } else if x == 1 {
            AntennaPower::On
        } else if x == 2 {
            AntennaPower::DontKnow
        } else {
            AntennaPower::Reserved(x)
        }
    }

    /// The raw value of this variant.
    pub open spec fn spec_into_raw(self) -> u8 {
        match self {
            AntennaPower::Off => 0,
            AntennaPower::On => 1,
            AntennaPower::DontKnow => 2,
            AntennaPower::Reserved(x) => x,
        }
    }

    /// The variant whose raw value is `x`.
    pub fn from(x: u8) -> (r: AntennaPower)
        ensures
            r == Self::spec_from(x),
            r.spec_into_raw() == x,
    {
        if x == 0 {
            AntennaPower::Off
        } else if x == 1 {
            AntennaPower::On
        } else if x == 2 {
            AntennaPower::DontKnow
        } else {
            AntennaPower::Reserved(x)
        }
    }

    /// The raw value of this variant.
    pub fn into_raw(self) -> (r: u8)
        ensures
            r == self.spec_into_raw(),
    {
        match self {
            AntennaPower::Off => 0,
            AntennaPower::On => 1,
            AntennaPower::DontKnow => 2,
            AntennaPower::Reserved(x) => x,
        }
    }
}

/// Result of an assistance message.
#[derive(Debug, Copy, Clone, PartialEq, Eq, Structural)]
pub enum MsgAckInfoCode {
    Accepted,
    RejectedNoTime,
    RejectedBadVersion,
    RejectedBadSize,
    RejectedDBStoreFailed,
    RejectedNotReady,
    RejectedUnknownType,
    /// A value the protocol reserves.
    Reserved(u8),
}

impl MsgAckInfoCode {
    /// The variant whose raw value is `x`.
    pub open spec fn spec_from(x: u8) -> MsgAckInfoCode {
        if x == 0 {
            MsgAckInfoCode::Accepted
        } else if x == 1 {
            MsgAckInfoCode::RejectedNoTime
        } else if x == 2 {
            MsgAckInfoCode::RejectedBadVersion
        } else if x == 3 {
            MsgAckInfoCode::RejectedBadSize
        } else if x == 4 {
            MsgAckInfoCode::RejectedDBStoreFailed
        } else if x == 5 {
            MsgAckInfoCode::RejectedNotReady
        } else if x == 6 {
            MsgAckInfoCode::RejectedUnknownType
        } else {
            MsgAckInfoCode::Reserved(x)
        }
    }

    /// The raw value of this variant.
    pub open spec fn spec_into_raw(self) -> u8 {
        match self {
            MsgAckInfoCode::Accepted => 0,
            MsgAckInfoCode::RejectedNoTime => 1,
            MsgAckInfoCode::RejectedBadVersion => 2,
            MsgAckInfoCode::RejectedBadSize => 3,
            MsgAckInfoCode::RejectedDBStoreFailed => 4,
            MsgAckInfoCode::RejectedNotReady => 5,
            MsgAckInfoCode::RejectedUnknownType => 6,
            MsgAckInfoCode::Reserved(x) => x,
        }
    }

    /// The variant whose raw value is `x`.
    pub fn from(x: u8) -> (r: MsgAckInfoCode)
        ensures
            r == Self::spec_from(x),
            r.spec_into_raw() == x,
    {
        if x == 0 {
            MsgAckInfoCode::Accepted
        } else if x == 1 {
            MsgAckInfoCode::RejectedNoTime
        } else if x == 2 {
            MsgAckInfoCode::RejectedBadVersion
        } else if x == 3 {
            MsgAckInfoCode::RejectedBadSize
        } else if x == 4 {
            MsgAckInfoCode::RejectedDBStoreFailed
        } else if x == 5 {
            MsgAckInfoCode::RejectedNotReady
        } else if x == 6 {
            MsgAckInfoCode::RejectedUnknownType
        } else {
            MsgAckInfoCode::Reserved(x)
        }
    }

    /// The raw value of this variant.
    pub fn into_raw(self) -> (r: u8)
        ensures
            r == self.spec_into_raw(),
    {
        match self {
            MsgAckInfoCode::Accepted => 0,
            MsgAckInfoCode::RejectedNoTime => 1,
            MsgAckInfoCode::RejectedBadVersion => 2,
            MsgAckInfoCode::RejectedBadSize => 3,
            MsgAckInfoCode::RejectedDBStoreFailed => 4,
            MsgAckInfoCode::RejectedNotReady => 5,
            MsgAckInfoCode::RejectedUnknownType => 6,
            MsgAckInfoCode::Reserved(x) => x,
        }
    }
}

/// Sensor fusion mode.
#[derive(Debug, Copy, Clone, PartialEq, Eq, Structural)]
pub enum EsfStatusFusionMode {
    Initializing,
    Fusion,
    Suspended,
    Disabled,
    /// A value the protocol reserves.
    Reserved(u8),
}

impl EsfStatusFusionMode {
    /// The variant whose raw value is `x`.
    pub open spec fn spec_from(x: u8) -> EsfStatusFusionMode {
        if x == 0 {
            EsfStatusFusionMode::Initializing
        } else if x == 1 {
            EsfStatusFusionMode::Fusion
        } else if x == 2 {
            EsfStatusFusionMode::Suspended
        } else if x == 3 {
            EsfStatusFusionMode::Disabled
        } else {
            EsfStatusFusionMode::Reserved(x)
        }
    }

    /// The raw value of this variant.
    pub open spec fn spec_into_raw(self) -> u8 {
        match self {
            EsfStatusFusionMode::Initializing => 0,
            EsfStatusFusionMode::Fusion => 1,
            EsfStatusFusionMode::Suspended => 2,
            EsfStatusFusionMode::Disabled => 3,
            EsfStatusFusionMode::Reserved(x) => x,
        }
    }

    /// The variant whose raw value is `x`.
    pub fn from(x: u8) -> (r: EsfStatusFusionMode)
        ensures
            r == Self::spec_from(x),
            r.spec_into_raw() == x,
    {
        if x == 0 {
            EsfStatusFusionMode::Initializing
        } else if x == 1 {
            EsfStatusFusionMode::Fusion
        } else if x == 2 {
            EsfStatusFusionMode::Suspended
        } else if x == 3 {
            EsfStatusFusionMode::Disabled
        } else {
            EsfStatusFusionMode::Reserved(x)
        }
    }

    /// The raw value of this variant.
    pub fn into_raw(self) -> (r: u8)
        ensures
            r == self.spec_into_raw(),
    {
        match self {
            EsfStatusFusionMode::Initializing => 0,
            EsfStatusFusionMode::Fusion => 1,
            EsfStatusFusionMode::Suspended => 2,
            EsfStatusFusionMode::Disabled => 3,
            EsfStatusFusionMode::Reserved(x) => x,
        }
    }
}

/// The configuration layer to read from.
#[derive(Debug, Copy, Clone, PartialEq, Eq, Structural)]
pub enum CfgLayerGet {
    Ram,
    Bbr,
    Flash,
    Default,
    /// A value the protocol reserves.
    Reserved(u8),
}

impl CfgLayerGet {
    /// The variant whose raw value is `x`.
    pub open spec fn spec_from(x: u8) -> CfgLayerGet {
        if x == 0 {
            CfgLayerGet::Ram
        } else if x == 1 {
            CfgLayerGet::Bbr
        } else if x == 2 {
            CfgLayerGet::Flash
        } else if x == 7 {
            CfgLayerGet::Default
        } else {
            CfgLayerGet::Reserved(x)
        }
    }

    /// The raw value of this variant.
    pub open spec fn spec_into_raw(self) -> u8 {
        match self {
            CfgLayerGet::Ram => 0,
            CfgLayerGet::Bbr => 1,
            CfgLayerGet::Flash => 2,
            CfgLayerGet::Default => 7,
            CfgLayerGet::Reserved(x) => x,
        }
    }

    /// The variant whose raw value is `x`.
    pub fn from(x: u8) -> (r: CfgLayerGet)
        ensures
            r == Self::spec_from(x),
            r.spec_into_raw() == x,
    {
        if x == 0 {
            CfgLayerGet::Ram
        } else if x == 1 {
            CfgLayerGet::Bbr
        } else if x == 2 {
            CfgLayerGet::Flash
        } else if x == 7 {
            CfgLayerGet::Default
        } else {
            CfgLayerGet::Reserved(x)
        }
    }

    /// The raw value of this variant.
    pub fn into_raw(self) -> (r: u8)
        ensures
            r == self.spec_into_raw(),
    {
        match self {
            CfgLayerGet::Ram => 0,
            CfgLayerGet::Bbr => 1,
            CfgLayerGet::Flash => 2,
            CfgLayerGet::Default => 7,
            CfgLayerGet::Reserved(x) => x,
        }
    }
}

/// The raw values of the variants of [NavDynamicModel], as the u-blox protocol
/// numbers them, and the variant each raw value is read as.
pub proof fn lemma_nav_dynamic_model_codes()
    ensures
        NavDynamicModel::Portable.spec_into_raw() == 0,
        NavDynamicModel::Stationary.spec_into_raw() == 2,
        NavDynamicModel::Pedestrian.spec_into_raw() == 3,
        NavDynamicModel::Automotive.spec_into_raw() == 4,
        NavDynamicModel::Sea.spec_into_raw() == 5,
        NavDynamicModel::AirborneWithLess1gAcceleration.spec_into_raw() == 6,
        NavDynamicModel::AirborneWithLess2gAcceleration.spec_into_raw() == 7,
        NavDynamicModel::AirborneWithLess4gAcceleration.spec_into_raw() == 8,
        NavDynamicModel::WristWornWatch.spec_into_raw() == 9,
        NavDynamicModel::Bike.spec_into_raw() == 10,
        NavDynamicModel::spec_from_raw(0) == NavDynamicModel::Portable,
        NavDynamicModel::spec_from_raw(2) == NavDynamicModel::Stationary,
        NavDynamicModel::spec_from_raw(3) == NavDynamicModel::Pedestrian,
        NavDynamicModel::spec_from_raw(4) == NavDynamicModel::Automotive,
        NavDynamicModel::spec_from_raw(5) == NavDynamicModel::Sea,
        NavDynamicModel::spec_from_raw(6) == NavDynamicModel::AirborneWithLess1gAcceleration,
        NavDynamicModel::spec_from_raw(7) == NavDynamicModel::AirborneWithLess2gAcceleration,
        NavDynamicModel::spec_from_raw(8) == NavDynamicModel::AirborneWithLess4gAcceleration,
        NavDynamicModel::spec_from_raw(9) == NavDynamicModel::WristWornWatch,
        NavDynamicModel::spec_from_raw(10) == NavDynamicModel::Bike,
        forall|x: u8| #[trigger] NavDynamicModel::spec_is_valid(x) <==> (x == 0 || x == 2 || x == 3 || x == 4 || x == 5 || x == 6 || x == 7 || x == 8 || x == 9 || x == 10),
{
}

/// The raw values of the variants of [NavFixMode], as the u-blox protocol
/// numbers them, and the variant each raw value is read as.
pub proof fn lemma_nav_fix_mode_codes()
    ensures
        NavFixMode::Only2D.spec_into_raw() == 1,
        NavFixMode::Only3D.spec_into_raw() == 2,
        NavFixMode::Auto2D3D.spec_into_raw() == 3,
        NavFixMode::spec_from_raw(1) == NavFixMode::Only2D,
        NavFixMode::spec_from_raw(2) == NavFixMode::Only3D,
        NavFixMode::spec_from_raw(3) == NavFixMode::Auto2D3D,
        forall|x: u8| #[trigger] NavFixMode::spec_is_valid(x) <==> (x == 1 || x == 2 || x == 3),
{
}

/// The raw values of the variants of [UtcStandardIdentifier], as the u-blox protocol
/// numbers them, and the variant each raw value is read as.
pub proof fn lemma_utc_standard_identifier_codes()
    ensures
        UtcStandardIdentifier::Automatic.spec_into_raw() == 0,
        UtcStandardIdentifier::Usno.spec_into_raw() == 3,
        UtcStandardIdentifier::UtcSu.spec_into_raw() == 6,
        UtcStandardIdentifier::UtcChina.spec_into_raw() == 7,
        UtcStandardIdentifier::spec_from_raw(0) == UtcStandardIdentifier::Automatic,
        UtcStandardIdentifier::spec_from_raw(3) == UtcStandardIdentifier::Usno,
        UtcStandardIdentifier::spec_from_raw(6) == UtcStandardIdentifier::UtcSu,
        UtcStandardIdentifier::spec_from_raw(7) == UtcStandardIdentifier::UtcChina,
        forall|x: u8| #[trigger] UtcStandardIdentifier::spec_is_valid(x) <==> (x == 0 || x == 3 || x == 6 || x == 7),
{
}

/// The raw values of the variants of [CfgNav5DynModel], as the u-blox protocol
/// numbers them, and the variant each raw value is read as.
pub proof fn lemma_cfg_nav5_dyn_model_codes()
    ensures
        CfgNav5DynModel::Portable.spec_into_raw() == 0,
        CfgNav5DynModel::Stationary.spec_into_raw() == 2,
        CfgNav5DynModel::Pedestrian.spec_into_raw() == 3,
        CfgNav5DynModel::Automotive.spec_into_raw() == 4,
        CfgNav5DynModel::Sea.spec_into_raw() == 5,
        CfgNav5DynModel::AirborneWithLess1gAcceleration.spec_into_raw() == 6,
        CfgNav5DynModel::AirborneWithLess2gAcceleration.spec_into_raw() == 7,
        CfgNav5DynModel::AirborneWith4gAcceleration.spec_into_raw() == 8,
        CfgNav5DynModel::WristWornWatch.spec_into_raw() == 9,
        CfgNav5DynModel::Bike.spec_into_raw() == 10,
        CfgNav5DynModel::spec_from_raw(0) == CfgNav5DynModel::Portable,
        CfgNav5DynModel::spec_from_raw(2) == CfgNav5DynModel::Stationary,
        CfgNav5DynModel::spec_from_raw(3) == CfgNav5DynModel::Pedestrian,
        CfgNav5DynModel::spec_from_raw(4) == CfgNav5DynModel::Automotive,
        CfgNav5DynModel::spec_from_raw(5) == CfgNav5DynModel::Sea,
        CfgNav5DynModel::spec_from_raw(6) == CfgNav5DynModel::AirborneWithLess1gAcceleration,
        CfgNav5DynModel::spec_from_raw(7) == CfgNav5DynModel::AirborneWithLess2gAcceleration,
        CfgNav5DynModel::spec_from_raw(8) == CfgNav5DynModel::AirborneWith4gAcceleration,
        CfgNav5DynModel::spec_from_raw(9) == CfgNav5DynModel::WristWornWatch,
        CfgNav5DynModel::spec_from_raw(10) == CfgNav5DynModel::Bike,
        forall|x: u8| #[trigger] CfgNav5DynModel::spec_is_valid(x) <==> (x == 0 || x == 2 || x == 3 || x == 4 || x == 5 || x == 6 || x == 7 || x == 8 || x == 9 || x == 10),
{
}

/// The raw values of the variants of [CfgNav5FixMode], as the u-blox protocol
/// numbers them, and the variant each raw value is read as.
pub proof fn lemma_cfg_nav5_fix_mode_codes()
    ensures
        CfgNav5FixMode::Only2D.spec_into_raw() == 1,
        CfgNav5FixMode::Only3D.spec_into_raw() == 2,
        CfgNav5FixMode::Auto2D3D.spec_into_raw() == 3,
        CfgNav5FixMode::spec_from_raw(1) == CfgNav5FixMode::Only2D,
        CfgNav5FixMode::spec_from_raw(2) == CfgNav5FixMode::Only3D,
        CfgNav5FixMode::spec_from_raw(3) == CfgNav5FixMode::Auto2D3D,
        forall|x: u8| #[trigger] CfgNav5FixMode::spec_is_valid(x) <==> (x == 1 || x == 2 || x == 3),
{
}

/// The raw values of the variants of [CfgNav5UtcStandard], as the u-blox protocol
/// numbers them, and the variant each raw value is read as.
pub proof fn lemma_cfg_nav5_utc_standard_codes()
    ensures
        CfgNav5UtcStandard::Automatic.spec_into_raw() == 0,
        CfgNav5UtcStandard::Usno.spec_into_raw() == 3,
        CfgNav5UtcStandard::UtcSu.spec_into_raw() == 6,
        CfgNav5UtcStandard::UtcChina.spec_into_raw() == 7,
        CfgNav5UtcStandard::spec_from_raw(0) == CfgNav5UtcStandard::Automatic,
        CfgNav5UtcStandard::spec_from_raw(3) == CfgNav5UtcStandard::Usno,
        CfgNav5UtcStandard::spec_from_raw(6) == CfgNav5UtcStandard::UtcSu,
        CfgNav5UtcStandard::spec_from_raw(7) == CfgNav5UtcStandard::UtcChina,
        forall|x: u8| #[trigger] CfgNav5UtcStandard::spec_is_valid(x) <==> (x == 0 || x == 3 || x == 6 || x == 7),
{
}

/// The raw values of the variants of [OdoProfile], as the u-blox protocol
/// numbers them, and the variant each raw value is read as.
pub proof fn lemma_odo_profile_codes()
    ensures
        OdoProfile::Running.spec_into_raw() == 0,
        OdoProfile::Cycling.spec_into_raw() == 1,
        OdoProfile::Swimming.spec_into_raw() == 2,
        OdoProfile::Car.spec_into_raw() == 3,
        OdoProfile::Custom.spec_into_raw() == 4,
        OdoProfile::spec_from_raw(0) == OdoProfile::Running,
        OdoProfile::spec_from_raw(1) == OdoProfile::Cycling,
        OdoProfile::spec_from_raw(2) == OdoProfile::Swimming,
        OdoProfile::spec_from_raw(3) == OdoProfile::Car,
        OdoProfile::spec_from_raw(4) == OdoProfile::Custom,
        forall|x: u8| #[trigger] OdoProfile::spec_is_valid(x) <==> (x == 0 || x == 1 || x == 2 || x == 3 || x == 4),
{
}

/// The raw values of the variants of [UartPortId], as the u-blox protocol
/// numbers them, and the variant each raw value is read as.
pub proof fn lemma_uart_port_id_codes()
    ensures
        UartPortId::Uart1.spec_into_raw() == 1,
        UartPortId::Uart2.spec_into_raw() == 2,
        UartPortId::Usb.spec_into_raw() == 3,
        UartPortId::spec_from_raw(1) == UartPortId::Uart1,
        UartPortId::spec_from_raw(2) == UartPortId::Uart2,
        UartPortId::spec_from_raw(3) == UartPortId::Usb,
        forall|x: u8| #[trigger] UartPortId::spec_is_valid(x) <==> (x == 1 || x == 2 || x == 3),
{
}

/// The raw values of the variants of [SpiPortId], as the u-blox protocol
/// numbers them, and the variant each raw value is read as.
pub proof fn lemma_spi_port_id_codes()
    ensures
        SpiPortId::Spi.spec_into_raw() == 4,
        SpiPortId::spec_from_raw(4) == SpiPortId::Spi,
        forall|x: u8| #[trigger] SpiPortId::spec_is_valid(x) <==> (x == 4),
{
}

/// The raw values of the variants of [I2cPortId], as the u-blox protocol
/// numbers them, and the variant each raw value is read as.
pub proof fn lemma_i2c_port_id_codes()
    ensures
        I2cPortId::I2c.spec_into_raw() == 0,
        I2cPortId::spec_from_raw(0) == I2cPortId::I2c,
        forall|x: u8| #[trigger] I2cPortId::spec_is_valid(x) <==> (x == 0),
{
}

/// The raw values of the variants of [CfgItfmAntennaSettings], as the u-blox protocol
/// numbers them, and the variant each raw value is read as.
pub proof fn lemma_cfg_itfm_antenna_settings_codes()
    ensures
        CfgItfmAntennaSettings::Unknown.spec_into_raw() == 0,
        CfgItfmAntennaSettings::Active.spec_into_raw() == 1,
        CfgItfmAntennaSettings::Passive.spec_into_raw() == 2,
        CfgItfmAntennaSettings::spec_from_raw(0) == CfgItfmAntennaSettings::Unknown,
        CfgItfmAntennaSettings::spec_from_raw(1) == CfgItfmAntennaSettings::Active,
        CfgItfmAntennaSettings::spec_from_raw(2) == CfgItfmAntennaSettings::Passive,
        forall|x: u8| #[trigger] CfgItfmAntennaSettings::spec_is_valid(x) <==> (x == 0 || x == 1 || x == 2),
{
}

/// The raw values of the variants of [AlignmentToReferenceTime], as the u-blox protocol
/// numbers them, and the variant each raw value is read as.
pub proof fn lemma_alignment_to_reference_time_codes()
    ensures
        AlignmentToReferenceTime::Utc.spec_into_raw() == 0,
        AlignmentToReferenceTime::Gps.spec_into_raw() == 1,
        AlignmentToReferenceTime::Glo.spec_into_raw() == 2,
        AlignmentToReferenceTime::Bds.spec_into_raw() == 3,
        AlignmentToReferenceTime::Gal.spec_into_raw() == 4,
        AlignmentToReferenceTime::spec_from_raw(0) == AlignmentToReferenceTime::Utc,
        AlignmentToReferenceTime::spec_from_raw(1) == AlignmentToReferenceTime::Gps,
        AlignmentToReferenceTime::spec_from_raw(2) == AlignmentToReferenceTime::Glo,
        AlignmentToReferenceTime::spec_from_raw(3) == AlignmentToReferenceTime::Bds,
        AlignmentToReferenceTime::spec_from_raw(4) == AlignmentToReferenceTime::Gal,
        forall|x: u8| #[trigger] AlignmentToReferenceTime::spec_is_valid(x) <==> (x == 0 || x == 1 || x == 2 || x == 3 || x == 4),
{
}

/// The raw values of the variants of [CfgTModeModes], as the u-blox protocol
/// numbers them, and the variant each raw value is read as.
pub proof fn lemma_cfg_t_mode_modes_codes()
    ensures
        CfgTModeModes::Disabled.spec_into_raw() == 0,
        CfgTModeModes::SurveyIn.spec_into_raw() == 1,
        CfgTModeModes::Fixed.spec_into_raw() == 2,
        CfgTModeModes::spec_from_raw(0) == CfgTModeModes::Disabled,
        CfgTModeModes::spec_from_raw(1) == CfgTModeModes::SurveyIn,
        CfgTModeModes::spec_from_raw(2) == CfgTModeModes::Fixed,
        forall|x: u8| #[trigger] CfgTModeModes::spec_is_valid(x) <==> (x == 0 || x == 1 || x == 2),
{
}

/// The raw values of the variants of [CfgTp5TimePulseMode], as the u-blox protocol
/// numbers them, and the variant each raw value is read as.
pub proof fn lemma_cfg_tp5_time_pulse_mode_codes()
    ensures
        CfgTp5TimePulseMode::TimePulse.spec_into_raw() == 0,
        CfgTp5TimePulseMode::TimePulse2.spec_into_raw() == 1,
        CfgTp5TimePulseMode::spec_from_raw(0) == CfgTp5TimePulseMode::TimePulse,
        CfgTp5TimePulseMode::spec_from_raw(1) == CfgTp5TimePulseMode::TimePulse2,
        forall|x: u8| #[trigger] CfgTp5TimePulseMode::spec_is_valid(x) <==> (x == 0 || x == 1),
{
}

/// The raw values of the variants of [TpPulse], as the u-blox protocol
/// numbers them, and the variant each raw value is read as.
pub proof fn lemma_tp_pulse_codes()
    ensures
        TpPulse::Period.spec_into_raw() == 0,
        TpPulse::Freq.spec_into_raw() == 1,
        TpPulse::spec_from_raw(0) == TpPulse::Period,
        TpPulse::spec_from_raw(1) == TpPulse::Freq,
        forall|x: u8| #[trigger] TpPulse::spec_is_valid(x) <==> (x == 0 || x == 1),
{
}

/// The raw values of the variants of [TpPulseLength], as the u-blox protocol
/// numbers them, and the variant each raw value is read as.
pub proof fn lemma_tp_pulse_length_codes()
    ensures
        TpPulseLength::Ratio.spec_into_raw() == 0,
        TpPulseLength::Length.spec_into_raw() == 1,
        TpPulseLength::spec_from_raw(0) == TpPulseLength::Ratio,
        TpPulseLength::spec_from_raw(1) == TpPulseLength::Length,
        forall|x: u8| #[trigger] TpPulseLength::spec_is_valid(x) <==> (x == 0 || x == 1),
{
}

/// The raw values of the variants of [TModePosType], as the u-blox protocol
/// numbers them, and the variant each raw value is read as.
pub proof fn lemma_t_mode_pos_type_codes()
    ensures
        TModePosType::ECEF.spec_into_raw() == 0,
        TModePosType::LLH.spec_into_raw() == 1,
        TModePosType::spec_from_raw(0) == TModePosType::ECEF,
        TModePosType::spec_from_raw(1) == TModePosType::LLH,
        forall|x: u8| #[trigger] TModePosType::spec_is_valid(x) <==> (x == 0 || x == 1),
{
}

/// The raw values of the variants of [ResetMode], as the u-blox protocol
/// numbers them, and the variant each raw value is read as.
pub proof fn lemma_reset_mode_codes()
    ensures
        ResetMode::HardwareResetImmediately.spec_into_raw() == 0,
        ResetMode::ControlledSoftwareReset.spec_into_raw() == 1,
        ResetMode::ControlledSoftwareResetGpsOnly.spec_into_raw() == 2,
        ResetMode::HardwareResetAfterShutdown.spec_into_raw() == 4,
        ResetMode::ControlledGpsStop.spec_into_raw() == 8,
        ResetMode::ControlledGpsStart.spec_into_raw() == 9,
        ResetMode::spec_from_raw(0) == ResetMode::HardwareResetImmediately,
        ResetMode::spec_from_raw(1) == ResetMode::ControlledSoftwareReset,
        ResetMode::spec_from_raw(2) == ResetMode::ControlledSoftwareResetGpsOnly,
        ResetMode::spec_from_raw(4) == ResetMode::HardwareResetAfterShutdown,
        ResetMode::spec_from_raw(8) == ResetMode::ControlledGpsStop,
        ResetMode::spec_from_raw(9) == ResetMode::ControlledGpsStart,
        forall|x: u8| #[trigger] ResetMode::spec_is_valid(x) <==> (x == 0 || x == 1 || x == 2 || x == 4 || x == 8 || x == 9),
{
}

/// The raw values of the variants of [GpsFix], as the u-blox protocol
/// numbers them, and the variant each raw value is read as.
pub proof fn lemma_gps_fix_codes()
    ensures
        GpsFix::NoFix.spec_into_raw() == 0,
        GpsFix::DeadReckoningOnly.spec_into_raw() == 1,
        GpsFix::Fix2D.spec_into_raw() == 2,
        GpsFix::Fix3D.spec_into_raw() == 3,
        GpsFix::GPSPlusDeadReckoning.spec_into_raw() == 4,
        GpsFix::TimeOnlyFix.spec_into_raw() == 5,
        GpsFix::spec_from(0) == GpsFix::NoFix,
        GpsFix::spec_from(1) == GpsFix::DeadReckoningOnly,
        GpsFix::spec_from(2) == GpsFix::Fix2D,
        GpsFix::spec_from(3) == GpsFix::Fix3D,
        GpsFix::spec_from(4) == GpsFix::GPSPlusDeadReckoning,
        GpsFix::spec_from(5) == GpsFix::TimeOnlyFix,
        forall|x: u8| !(x == 0 || x == 1 || x == 2 || x == 3 || x == 4 || x == 5) ==> #[trigger] GpsFix::spec_from(x) == GpsFix::Reserved(x),
{
}

/// The raw values of the variants of [GnssFixType], as the u-blox protocol
/// numbers them, and the variant each raw value is read as.
pub proof fn lemma_gnss_fix_type_codes()
    ensures
        GnssFixType::NoFix.spec_into_raw() == 0,
        GnssFixType::DeadReckoningOnly.spec_into_raw() == 1,
        GnssFixType::Fix2D.spec_into_raw() == 2,
        GnssFixType::Fix3D.spec_into_raw() == 3,
        GnssFixType::GPSPlusDeadReckoning.spec_into_raw() == 4,
        GnssFixType::TimeOnlyFix.spec_into_raw() == 5,
        GnssFixType::spec_from(0) == GnssFixType::NoFix,
        GnssFixType::spec_from(1) == GnssFixType::DeadReckoningOnly,
        GnssFixType::spec_from(2) == GnssFixType::Fix2D,
        GnssFixType::spec_from(3) == GnssFixType::Fix3D,
        GnssFixType::spec_from(4) == GnssFixType::GPSPlusDeadReckoning,
        GnssFixType::spec_from(5) == GnssFixType::TimeOnlyFix,
        forall|x: u8| !(x == 0 || x == 1 || x == 2 || x == 3 || x == 4 || x == 5) ==> #[trigger] GnssFixType::spec_from(x) == GnssFixType::Reserved(x),
{
}

/// The raw values of the variants of [AntennaStatus], as the u-blox protocol
/// numbers them, and the variant each raw value is read as.
pub proof fn lemma_antenna_status_codes()
    ensures
        AntennaStatus::Init.spec_into_raw() == 0,
        AntennaStatus::DontKnow.spec_into_raw() == 1,
        AntennaStatus::AntennaOk.spec_into_raw() == 2,
        AntennaStatus::Short.spec_into_raw() == 3,
        AntennaStatus::Open.spec_into_raw() == 4,
        AntennaStatus::spec_from(0) == AntennaStatus::Init,
        AntennaStatus::spec_from(1) == AntennaStatus::DontKnow,
        AntennaStatus::spec_from(2) == AntennaStatus::AntennaOk,
        AntennaStatus::spec_from(3) == AntennaStatus::Short,
        AntennaStatus::spec_from(4) == AntennaStatus::Open,
        forall|x: u8| !(x == 0 || x == 1 || x == 2 || x == 3 || x == 4) ==> #[trigger] AntennaStatus::spec_from(x) == AntennaStatus::Reserved(x),
{
}

/// The raw values of the variants of [AntennaPower], as the u-blox protocol
/// numbers them, and the variant each raw value is read as.
pub proof fn lemma_antenna_power_codes()
    ensures
        AntennaPower::Off.spec_into_raw() == 0,
        AntennaPower::On.spec_into_raw() == 1,
        AntennaPower::DontKnow.spec_into_raw() == 2,
        AntennaPower::spec_from(0) == AntennaPower::Off,
        AntennaPower::spec_from(1) == AntennaPower::On,
        AntennaPower::spec_from(2) == AntennaPower::DontKnow,
        forall|x: u8| !(x == 0 || x == 1 || x == 2) ==> #[trigger] AntennaPower::spec_from(x) == AntennaPower::Reserved(x),
{
}

/// The raw values of the variants of [MsgAckInfoCode], as the u-blox protocol
/// numbers them, and the variant each raw value is read as.
pub proof fn lemma_msg_ack_info_code_codes()
    ensures
        MsgAckInfoCode::Accepted.spec_into_raw() == 0,
        MsgAckInfoCode::RejectedNoTime.spec_into_raw() == 1,
        MsgAckInfoCode::RejectedBadVersion.spec_into_raw() == 2,
        MsgAckInfoCode::RejectedBadSize.spec_into_raw() == 3,
        MsgAckInfoCode::RejectedDBStoreFailed.spec_into_raw() == 4,
        MsgAckInfoCode::RejectedNotReady.spec_into_raw() == 5,
        MsgAckInfoCode::RejectedUnknownType.spec_into_raw() == 6,
        MsgAckInfoCode::spec_from(0) == MsgAckInfoCode::Accepted,
        MsgAckInfoCode::spec_from(1) == MsgAckInfoCode::RejectedNoTime,
        MsgAckInfoCode::spec_from(2) == MsgAckInfoCode::RejectedBadVersion,
        MsgAckInfoCode::spec_from(3) == MsgAckInfoCode::RejectedBadSize,
        MsgAckInfoCode::spec_from(4) == MsgAckInfoCode::RejectedDBStoreFailed,
        MsgAckInfoCode::spec_from(5) == MsgAckInfoCode::RejectedNotReady,
        MsgAckInfoCode::spec_from(6) == MsgAckInfoCode::RejectedUnknownType,
        forall|x: u8| !(x == 0 || x == 1 || x == 2 || x == 3 || x == 4 || x == 5 || x == 6) ==> #[trigger] MsgAckInfoCode::spec_from(x) == MsgAckInfoCode::Reserved(x),
{
}

/// The raw values of the variants of [EsfStatusFusionMode], as the u-blox protocol
/// numbers them, and the variant each raw value is read as.
pub proof fn lemma_esf_status_fusion_mode_codes()
    ensures
        EsfStatusFusionMode::Initializing.spec_into_raw() == 0,
        EsfStatusFusionMode::Fusion.spec_into_raw() == 1,
        EsfStatusFusionMode::Suspended.spec_into_raw() == 2,
        EsfStatusFusionMode::Disabled.spec_into_raw() == 3,
        EsfStatusFusionMode::spec_from(0) == EsfStatusFusionMode::Initializing,
        EsfStatusFusionMode::spec_from(1) == EsfStatusFusionMode::Fusion,
        EsfStatusFusionMode::spec_from(2) == EsfStatusFusionMode::Suspended,
        EsfStatusFusionMode::spec_from(3) == EsfStatusFusionMode::Disabled,
        forall|x: u8| !(x == 0 || x == 1 || x == 2 || x == 3) ==> #[trigger] EsfStatusFusionMode::spec_from(x) == EsfStatusFusionMode::Reserved(x),
{
}

/// The raw values of the variants of [CfgLayerGet], as the u-blox protocol
/// numbers them, and the variant each raw value is read as.
pub proof fn lemma_cfg_layer_get_codes()
    ensures
        CfgLayerGet::Ram.spec_into_raw() == 0,
        CfgLayerGet::Bbr.spec_into_raw() == 1,
        CfgLayerGet::Flash.spec_into_raw() == 2,
        CfgLayerGet::Default.spec_into_raw() == 7,
        CfgLayerGet::spec_from(0) == CfgLayerGet::Ram,
        CfgLayerGet::spec_from(1) == CfgLayerGet::Bbr,
        CfgLayerGet::spec_from(2) == CfgLayerGet::Flash,
        CfgLayerGet::spec_from(7) == CfgLayerGet::Default,
        forall|x: u8| !(x == 0 || x == 1 || x == 2 || x == 7) ==> #[trigger] CfgLayerGet::spec_from(x) == CfgLayerGet::Reserved(x),
{
}

} // verus!
