//! ESF-STATUS: status of the external sensor fusion.

use vstd::prelude::*;

use crate::error::ParserError;
use crate::ubx_packets::bytes_le::{le_u32, read_u32_le};
use crate::ubx_packets::packets::enums::EsfStatusFusionMode;
use crate::ubx_packets::UbxPacketMeta;

verus! {

/// External sensor fusion status: a 16-byte header followed by one 4-byte
/// block per sensor.
pub struct EsfStatus;

impl UbxPacketMeta for EsfStatus {
    const CLASS: u8 = 0x10;
    const ID: u8 = 0x10;
    const MAX_PAYLOAD_LEN: u16 = 1240;

    fn fixed_payload_len() -> (r: Option<u16>)
        ensures
            r is None,
    {
        None
    }
}

/// Payload of an [EsfStatus] packet.
pub struct EsfStatusRef<'a>(pub &'a [u8]);

impl<'a> EsfStatusRef<'a> {
    /// The outcome of validating a payload.
    pub open spec fn spec_validate(payload: Seq<u8>) -> Result<(), ParserError> {
        if payload.len() < 16 {
            Err(ParserError::InvalidPacketLen { packet: "EsfStatus", expect: 16, got: payload.len() as usize })
        } else if (payload.len() - 16) % 4 != 0 {
            Err(ParserError::InvalidField { packet: "EsfStatus", field: "data" })
        } else {
            Ok(())
        }
    }

    /// Checks that `payload` is a valid [EsfStatus] payload.
    pub fn validate(payload: &[u8]) -> (r: Result<(), ParserError>)
        ensures
            r == Self::spec_validate(payload@),
    {
        if payload.len() < 16 {
            Err(ParserError::InvalidPacketLen { packet: "EsfStatus", expect: 16, got: payload.len() })
        } else if !EsfSensorStatusIter::is_valid(crate::buffer::slice_subrange(payload, 16, payload.len())) {
            Err(ParserError::InvalidField { packet: "EsfStatus", field: "data" })
        } else {
            Ok(())
        }
    }

    /// Length of the payload.
    pub fn payload_len(&self) -> (r: usize)
        ensures
            r == self.0@.len(),
    {
        self.0.len()
    }

    /// GPS time of week of the navigation epoch (ms).
    pub fn itow(&self) -> (r: u32)
        requires
            Self::spec_validate(self.0@) is Ok,
        ensures
            r == le_u32(self.0@, 0),
    {
        read_u32_le(self.0, 0)
    }

    /// Message version.
    pub fn version(&self) -> (r: u8)
        requires
            Self::spec_validate(self.0@) is Ok,
        ensures
            r == self.0@[4],
    {
        self.0[4]
    }

    /// Initialisation status of wheel ticks, mount alignment and INS.
    pub fn init_status1(&self) -> (r: EsfInitStatus1)
        requires
            Self::spec_validate(self.0@) is Ok,
        ensures
            r.0 == self.0@[5],
    {
        EsfInitStatus1(self.0[5])
    }

    /// Initialisation status of the IMU.
    pub fn init_status2(&self) -> (r: EsfInitStatus2)
        requires
            Self::spec_validate(self.0@) is Ok,
        ensures
            r.0 == self.0@[6],
    {
        EsfInitStatus2(self.0[6])
    }

    /// Fusion mode.
    pub fn fusion_mode(&self) -> (r: EsfStatusFusionMode)
        requires
            Self::spec_validate(self.0@) is Ok,
        ensures
            r == EsfStatusFusionMode::spec_from(self.0@[12]),
    {
        EsfStatusFusionMode::from(self.0[12])
    }

    /// Number of sensors.
    pub fn num_sens(&self) -> (r: u8)
        requires
            Self::spec_validate(self.0@) is Ok,
        ensures
            r == self.0@[15],
    {
        self.0[15]
    }

    /// The status blocks of the sensors.
    pub fn data(&self) -> (r: EsfSensorStatusIter<'a>)
        requires
            Self::spec_validate(self.0@) is Ok,
        ensures
            r.data@ == self.0@.skip(16),
            r.offset == 0,
    {
        EsfSensorStatusIter::new(crate::buffer::slice_subrange(self.0, 16, self.0.len()))
    }
}

/// First initialisation status byte.
#[derive(Debug, Copy, Clone, PartialEq, Eq, Structural)]
pub struct EsfInitStatus1(pub u8);

impl EsfInitStatus1 {
    /// Wheel-tick initialisation status (bits 0 and 1).
    pub fn wheel_tick_init_status(self) -> (r: EsfStatusWheelTickInit)
        ensures
            r == four_state(self.0 % 4),
    {
        four_state_of(self.0 % 4)
    }

    /// Raw value of [Self::wheel_tick_init_status].
    pub fn wheel_tick_init_status_raw(self) -> (r: u8)
        ensures
            r == self.0 % 4,
    {
        self.wheel_tick_init_status().into_raw()
    }

    /// Mount-alignment status (bits 2 to 4): 2 and 3 both mean initialised,
    /// higher values are invalid.
    pub fn mounting_angle_status(self) -> (r: EsfStatusMountAngle)
        ensures
            r == mount_angle_of((self.0 / 4) % 8),
    {
        let bits = (self.0 / 4) % 8;
        match bits {
            0 => EsfStatusMountAngle::Off,
            1 => EsfStatusMountAngle::Initializing,
            2 | 3 => EsfStatusMountAngle::Initialized,
            _ => EsfStatusMountAngle::Invalid,
        }
    }

    /// Raw value of [Self::mounting_angle_status].
    pub fn mount_angle_status_raw(self) -> (r: u8)
        ensures
            r == mount_angle_of((self.0 / 4) % 8).spec_into_raw(),
    {
        self.mounting_angle_status().into_raw()
    }

    /// INS initialisation status (bits 5 and 6).
    pub fn ins_initialization_status(self) -> (r: EsfStatusInsInit)
        ensures
            r == ins_init_of((self.0 / 32) % 4),
    {
        let bits = (self.0 / 32) % 4;
        match bits {
            0 => EsfStatusInsInit::Off,
            1 => EsfStatusInsInit::Initializing,
            2 => EsfStatusInsInit::Initialized,
            _ => EsfStatusInsInit::Invalid,
        }
    }

    /// Raw value of [Self::ins_initialization_status].
    pub fn ins_initialization_status_raw(self) -> (r: u8)
        ensures
            r == (self.0 / 32) % 4,
    {
        self.ins_initialization_status().into_raw()
    }
}

/// The wheel-tick status a two-bit value stands for.
pub open spec fn four_state(bits: u8) -> EsfStatusWheelTickInit {
    if bits == 0 {
        EsfStatusWheelTickInit::Off
    } else if bits == 1 {
        EsfStatusWheelTickInit::Initializing
    } else if bits == 2 {
        EsfStatusWheelTickInit::Initialized
    } else {
        EsfStatusWheelTickInit::Invalid
    }
}

fn four_state_of(bits: u8) -> (r: EsfStatusWheelTickInit)
    ensures
        r == four_state(bits),
{
    match bits {
        0 => EsfStatusWheelTickInit::Off,
        1 => EsfStatusWheelTickInit::Initializing,
        2 => EsfStatusWheelTickInit::Initialized,
        _ => EsfStatusWheelTickInit::Invalid,
    }
}

/// The mount-alignment status a three-bit value stands for.
pub open spec fn mount_angle_of(bits: u8) -> EsfStatusMountAngle {
    if bits == 0 {
        EsfStatusMountAngle::Off
    } else if bits == 1 {
        EsfStatusMountAngle::Initializing
    } else if bits == 2 || bits == 3 {
        EsfStatusMountAngle::Initialized
    } else {
        EsfStatusMountAngle::Invalid
    }
}

/// The INS status a two-bit value stands for.
pub open spec fn ins_init_of(bits: u8) -> EsfStatusInsInit {
    if bits == 0 {
        EsfStatusInsInit::Off
    } else if bits == 1 {
        EsfStatusInsInit::Initializing
    } else if bits == 2 {
        EsfStatusInsInit::Initialized
    } else {
        EsfStatusInsInit::Invalid
    }
}

/// Second initialisation status byte.
#[derive(Debug, Copy, Clone, PartialEq, Eq, Structural)]
pub struct EsfInitStatus2(pub u8);

/// The IMU initialisation status a two-bit value stands for.
pub open spec fn imu_init_of(bits: u8) -> EsfStatusImuInit {
    if bits == 0 {
        EsfStatusImuInit::Off
    } else if bits == 1 {
        EsfStatusImuInit::Initializing
    } else if bits == 2 {
        EsfStatusImuInit::Initialized
    } else {
        EsfStatusImuInit::Invalid
    }
}

impl EsfInitStatus2 {
    /// Raw value of [Self::imu_init_status]: bits 0 and 1.
    pub fn imu_init_status_raw(self) -> (r: u8)
        ensures
            r == self.0 % 4,
    {
        self.imu_init_status().into_raw()
    }

    /// IMU initialisation status, held in bits 0 and 1.
    pub fn imu_init_status(self) -> (r: EsfStatusImuInit)
        ensures
            r == imu_init_of(self.0 % 4),
    {
        let bits = self.0 % 4;
        match bits {
            0 => EsfStatusImuInit::Off,
            1 => EsfStatusImuInit::Initializing,
            2 => EsfStatusImuInit::Initialized,
            _ => EsfStatusImuInit::Invalid,
        }
    }
}

/// Status of one sensor.
#[derive(Debug, Copy, Clone, PartialEq, Eq, Structural)]
pub struct EsfSensorStatus {
    pub sens_status1: SensorStatus1,
    pub sens_status2: SensorStatus2,
    pub freq: u16,
    pub faults: EsfSensorFaults,
}

/// The sensor status held in the four bytes at `off` of `s`.
pub open spec fn sensor_status_at(s: Seq<u8>, off: int) -> EsfSensorStatus {
    EsfSensorStatus {
        sens_status1: sensor_status1_of(s[off]),
        sens_status2: sensor_status2_of(s[off + 1]),
        freq: s[off + 2] as u16,
        faults: faults_of(s[off + 3]),
    }
}

impl EsfSensorStatus {
    /// Observation frequency (Hz).
    pub fn freq(&self) -> (r: u16)
        ensures
            r == self.freq,
    {
        self.freq
    }

    /// Sensor faults.
    pub fn faults(&self) -> (r: EsfSensorFaults)
        ensures
            r == self.faults,
    {
        self.faults
    }

    /// Raw sensor fault bits.
    pub fn faults_raw(&self) -> (r: u8)
        ensures
            r == self.faults.0,
    {
        self.faults().into_raw()
    }

    /// Kind of the sensor.
    pub fn sensor_type(&self) -> (r: EsfSensorType)
        ensures
            r == self.sens_status1.sensor_type,
    {
        self.sens_status1.sensor_type
    }

    /// Raw kind of the sensor.
    pub fn sensor_type_raw(&self) -> (r: u8)
        ensures
            r == self.sens_status1.sensor_type.spec_into_raw(),
    {
        self.sensor_type().into_raw()
    }

    /// Whether the sensor data is used by the fusion.
    pub fn sensor_used(&self) -> (r: bool)
        ensures
            r == self.sens_status1.used,
    {
        self.sens_status1.used
    }

    /// Whether the sensor is set up.
    pub fn sensor_ready(&self) -> (r: bool)
        ensures
            r == self.sens_status1.ready,
    {
        self.sens_status1.ready
    }

    /// Calibration status of the sensor.
    pub fn calibration_status(&self) -> (r: EsfSensorStatusCalibration)
        ensures
            r == self.sens_status2.calibration_status,
    {
        self.sens_status2.calibration_status
    }

    /// Raw calibration status of the sensor.
    pub fn calibration_status_raw(&self) -> (r: u8)
        ensures
            r == self.sens_status2.calibration_status.spec_into_raw(),
    {
        self.calibration_status().into_raw()
    }

    /// How the sensor measurements are time-tagged.
    pub fn time_status(&self) -> (r: EsfSensorStatusTime)
        ensures
            r == self.sens_status2.time_status,
    {
        self.sens_status2.time_status
    }

    /// Raw time-tag status of the sensor.
    pub fn time_status_raw(&self) -> (r: u8)
        ensures
            r == self.sens_status2.time_status.spec_into_raw(),
    {
        self.time_status().into_raw()
    }
}

/// Iterator over the 4-byte sensor status blocks of an [EsfStatus] payload.
#[derive(Debug, Clone)]
pub struct EsfSensorStatusIter<'a> {
    pub data: &'a [u8],
    pub offset: usize,
}

impl<'a> EsfSensorStatusIter<'a> {
    /// An iterator over the blocks in `bytes`.
    fn new(bytes: &'a [u8]) -> (r: Self)
        ensures
            r.data == bytes,
            r.offset == 0,
    {
        Self { data: bytes, offset: 0 }
    }

    /// Whether `bytes` is a whole number of blocks.
    fn is_valid(bytes: &[u8]) -> (r: bool)
        ensures
            r == (bytes@.len() % 4 == 0),
    {
        bytes.len() % 4 == 0
    }

    /// The next sensor status, or `None` when no whole block is left.
    pub fn next(&mut self) -> (r: Option<EsfSensorStatus>)
        ensures
            final(self).data == old(self).data,
            old(self).offset + 4 <= old(self).data@.len() ==> {
                &&& r == Some(sensor_status_at(old(self).data@, old(self).offset as int))
                &&& final(self).offset == old(self).offset + 4
            },
            old(self).offset + 4 > old(self).data@.len() ==> r is None && final(self).offset
                == old(self).offset,
    {
        if self.data.len() < 4 || self.offset > self.data.len() - 4 {
            return None;
        }
        let o = self.offset;
        let s = self.data;
        self.offset = o + 4;
        Some(
            EsfSensorStatus {
                sens_status1: SensorStatus1::from(s[o]),
                sens_status2: SensorStatus2::from(s[o + 1]),
                freq: s[o + 2] as u16,
                faults: EsfSensorFaults::from(s[o + 3]),
            },
        )
    }
}

/// First status byte of a sensor: its kind (bits 0 to 5), whether it is
/// used (bit 6 or 7 set) and whether it is ready (bit 7).
#[derive(Debug, Copy, Clone, PartialEq, Eq, Structural)]
pub struct SensorStatus1 {
    pub sensor_type: EsfSensorType,
    pub used: bool,
    pub ready: bool,
}

/// The first status byte `s` read.
pub open spec fn sensor_status1_of(s: u8) -> SensorStatus1 {
    SensorStatus1 { sensor_type: sensor_type_of(s % 64), used: s / 64 != 0, ready: s / 128 != 0 }
}

impl From<u8> for SensorStatus1 {
    fn from(s: u8) -> (r: Self) {
        SensorStatus1 { sensor_type: EsfSensorType::from(s % 64), used: s / 64 != 0, ready: s / 128 != 0 }
    }
}

impl vstd::std_specs::convert::FromSpecImpl<u8> for SensorStatus1 {
    open spec fn obeys_from_spec() -> bool {
        true
    }

    open spec fn from_spec(s: u8) -> SensorStatus1 {
        sensor_status1_of(s)
    }
}

/// Second status byte of a sensor: calibration (bits 0 and 1) and time-tag
/// status (bits 2 and 3).
#[derive(Debug, Copy, Clone, PartialEq, Eq, Structural)]
pub struct SensorStatus2 {
    pub calibration_status: EsfSensorStatusCalibration,
    pub time_status: EsfSensorStatusTime,
}

/// The second status byte `s` read.
pub open spec fn sensor_status2_of(s: u8) -> SensorStatus2 {
    SensorStatus2 { calibration_status: calibration_of(s % 4), time_status: time_status_of((s / 4) % 4) }
}

impl From<u8> for SensorStatus2 {
    fn from(s: u8) -> (r: Self) {
        SensorStatus2 {
            calibration_status: EsfSensorStatusCalibration::from(s % 4),
            time_status: EsfSensorStatusTime::from((s / 4) % 4),
        }
    }
}

impl vstd::std_specs::convert::FromSpecImpl<u8> for SensorStatus2 {
    open spec fn obeys_from_spec() -> bool {
        true
    }

    open spec fn from_spec(s: u8) -> SensorStatus2 {
        sensor_status2_of(s)
    }
}

/// Fault bits of a sensor: bad measurement (1), bad time tag (2), missing
/// measurement (4), noisy measurement (8).
#[derive(Debug, Copy, Clone, PartialEq, Eq, Structural)]
pub struct EsfSensorFaults(pub u8);

/// A measurement was bad.
pub const ESF_FAULT_BAD_MEASUREMENT: u8 = 1;
/// A time tag was bad.
pub const ESF_FAULT_BAD_TIME_TAG: u8 = 2;
/// A measurement was missing.
pub const ESF_FAULT_MISSING_MEASUREMENT: u8 = 4;
/// A measurement was noisy.
pub const ESF_FAULT_NOISY_MEASUREMENT: u8 = 8;

/// The faults a byte holds: none at all when it sets an undefined bit.
pub open spec fn faults_of(s: u8) -> EsfSensorFaults {
    if s < 16 {
        EsfSensorFaults(s)
    } else {
        EsfSensorFaults(0)
    }
}

impl EsfSensorFaults {
    /// The fault bits.
    pub fn into_raw(self) -> (r: u8)
        ensures
            r == self.0,
    {
        self.0
    }
}

impl Default for EsfSensorFaults {
    fn default() -> (r: Self)
        ensures
            r == EsfSensorFaults(0),
    {
        EsfSensorFaults(0)
    }
}

impl From<u8> for EsfSensorFaults {
    fn from(s: u8) -> (r: Self) {
        if s < 16 {
            EsfSensorFaults(s)
        } else {
            EsfSensorFaults(0)
        }
    }
}

impl vstd::std_specs::convert::FromSpecImpl<u8> for EsfSensorFaults {
    open spec fn obeys_from_spec() -> bool {
        true
    }

    open spec fn from_spec(s: u8) -> EsfSensorFaults {
        faults_of(s)
    }
}

/// Initialisation status of wheel-tick data.
#[derive(Debug, Copy, Clone, PartialEq, Eq, Structural)]
pub enum EsfStatusWheelTickInit {
    Off,
    Initializing,
    Initialized,
    Invalid,
}

impl EsfStatusWheelTickInit {
    /// The raw value of this variant.
    pub open spec fn spec_into_raw(self) -> u8 {
        match self {
            EsfStatusWheelTickInit::Off => 0,
            EsfStatusWheelTickInit::Initializing => 1,
            EsfStatusWheelTickInit::Initialized => 2,
            EsfStatusWheelTickInit::Invalid => 3,
        }
    }

    /// The raw value of this variant.
    pub fn into_raw(self) -> (r: u8)
        ensures
            r == self.spec_into_raw(),
    {
        match self {
            EsfStatusWheelTickInit::Off => 0,
            EsfStatusWheelTickInit::Initializing => 1,
            EsfStatusWheelTickInit::Initialized => 2,
            EsfStatusWheelTickInit::Invalid => 3,
        }
    }
}

/// Initialisation status of the automatic IMU-mount alignment.
#[derive(Debug, Copy, Clone, PartialEq, Eq, Structural)]
pub enum EsfStatusMountAngle {
    Off,
    Initializing,
    Initialized,
    Invalid,
}

impl EsfStatusMountAngle {
    /// The raw value of this variant.
    pub open spec fn spec_into_raw(self) -> u8 {
        match self {
            EsfStatusMountAngle::Off => 0,
            EsfStatusMountAngle::Initializing => 1,
            EsfStatusMountAngle::Initialized => 2,
            EsfStatusMountAngle::Invalid => 3,
        }
    }

    /// The raw value of this variant.
    pub fn into_raw(self) -> (r: u8)
        ensures
            r == self.spec_into_raw(),
    {
        match self {
            EsfStatusMountAngle::Off => 0,
            EsfStatusMountAngle::Initializing => 1,
            EsfStatusMountAngle::Initialized => 2,
            EsfStatusMountAngle::Invalid => 3,
        }
    }
}

/// Initialisation status of the INS.
#[derive(Debug, Copy, Clone, PartialEq, Eq, Structural)]
pub enum EsfStatusInsInit {
    Off,
    Initializing,
    Initialized,
    Invalid,
}

impl EsfStatusInsInit {
    /// The raw value of this variant.
    pub open spec fn spec_into_raw(self) -> u8 {
        match self {
            EsfStatusInsInit::Off => 0,
            EsfStatusInsInit::Initializing => 1,
            EsfStatusInsInit::Initialized => 2,
            EsfStatusInsInit::Invalid => 3,
        }
    }

    /// The raw value of this variant.
    pub fn into_raw(self) -> (r: u8)
        ensures
            r == self.spec_into_raw(),
    {
        match self {
            EsfStatusInsInit::Off => 0,
            EsfStatusInsInit::Initializing => 1,
            EsfStatusInsInit::Initialized => 2,
            EsfStatusInsInit::Invalid => 3,
        }
    }
}

/// Initialisation status of the IMU.
#[derive(Debug, Copy, Clone, PartialEq, Eq, Structural)]
pub enum EsfStatusImuInit {
    Off,
    Initializing,
    Initialized,
    Invalid,
}

impl EsfStatusImuInit {
    /// The raw value of this variant.
    pub open spec fn spec_into_raw(self) -> u8 {
        match self {
            EsfStatusImuInit::Off => 0,
            EsfStatusImuInit::Initializing => 1,
            EsfStatusImuInit::Initialized => 2,
            EsfStatusImuInit::Invalid => 3,
        }
    }

    /// The raw value of this variant.
    pub fn into_raw(self) -> (r: u8)
        ensures
            r == self.spec_into_raw(),
    {
        match self {
            EsfStatusImuInit::Off => 0,
            EsfStatusImuInit::Initializing => 1,
            EsfStatusImuInit::Initialized => 2,
            EsfStatusImuInit::Invalid => 3,
        }
    }
}

/// Kind of a sensor.
#[derive(Debug, Copy, Clone, PartialEq, Eq, Structural)]
pub enum EsfSensorType {
    /// No sensor.
    NoSensor,
    GyroZ,
    FrontLeftWheelTicks,
    FrontRightWheelTicks,
    RearLeftWheelTicks,
    RearRightWheelTicks,
    SpeedTick,
    Speed,
    GyroTemp,
    GyroY,
    GyroX,
    AccX,
    AccY,
    AccZ,
    Invalid,
}

impl EsfSensorType {
    /// The raw value of this variant.
    pub open spec fn spec_into_raw(self) -> u8 {
        match self {
            EsfSensorType::NoSensor => 0,
            EsfSensorType::GyroZ => 5,
            EsfSensorType::FrontLeftWheelTicks => 6,
            EsfSensorType::FrontRightWheelTicks => 7,
            EsfSensorType::RearLeftWheelTicks => 8,
            EsfSensorType::RearRightWheelTicks => 9,
            EsfSensorType::SpeedTick => 10,
            EsfSensorType::Speed => 11,
            EsfSensorType::GyroTemp => 12,
            EsfSensorType::GyroY => 13,
            EsfSensorType::GyroX => 14,
            EsfSensorType::AccX => 16,
            EsfSensorType::AccY => 17,
            EsfSensorType::AccZ => 18,
            EsfSensorType::Invalid => 19,
        }
    }

    /// The raw value of this variant.
    pub fn into_raw(self) -> (r: u8)
        ensures
            r == self.spec_into_raw(),
    {
        match self {
            EsfSensorType::NoSensor => 0,
            EsfSensorType::GyroZ => 5,
            EsfSensorType::FrontLeftWheelTicks => 6,
            EsfSensorType::FrontRightWheelTicks => 7,
            EsfSensorType::RearLeftWheelTicks => 8,
            EsfSensorType::RearRightWheelTicks => 9,
            EsfSensorType::SpeedTick => 10,
            EsfSensorType::Speed => 11,
            EsfSensorType::GyroTemp => 12,
            EsfSensorType::GyroY => 13,
            EsfSensorType::GyroX => 14,
            EsfSensorType::AccX => 16,
            EsfSensorType::AccY => 17,
            EsfSensorType::AccZ => 18,
            EsfSensorType::Invalid => 19,
        }
    }
}

/// Calibration status of a sensor.
#[derive(Debug, Copy, Clone, PartialEq, Eq, Structural)]
pub enum EsfSensorStatusCalibration {
    NotCalibrated,
    Calibrating,
    Calibrated,
    Invalid,
}

impl EsfSensorStatusCalibration {
    /// The raw value of this variant.
    pub open spec fn spec_into_raw(self) -> u8 {
        match self {
            EsfSensorStatusCalibration::NotCalibrated => 0,
            EsfSensorStatusCalibration::Calibrating => 1,
            EsfSensorStatusCalibration::Calibrated => 2,
            EsfSensorStatusCalibration::Invalid => 4,
        }
    }

    /// The raw value of this variant.
    pub fn into_raw(self) -> (r: u8)
        ensures
            r == self.spec_into_raw(),
    {
        match self {
            EsfSensorStatusCalibration::NotCalibrated => 0,
            EsfSensorStatusCalibration::Calibrating => 1,
            EsfSensorStatusCalibration::Calibrated => 2,
            EsfSensorStatusCalibration::Invalid => 4,
        }
    }
}

/// How the measurements of a sensor are time-tagged.
#[derive(Debug, Copy, Clone, PartialEq, Eq, Structural)]
pub enum EsfSensorStatusTime {
    NoData,
    OnReceptionFirstByte,
    OnEventInput,
    TimeTagFromData,
    Invalid,
}

impl EsfSensorStatusTime {
    /// The raw value of this variant.
    pub open spec fn spec_into_raw(self) -> u8 {
        match self {
            EsfSensorStatusTime::NoData => 0,
            EsfSensorStatusTime::OnReceptionFirstByte => 1,
            EsfSensorStatusTime::OnEventInput => 2,
            EsfSensorStatusTime::TimeTagFromData => 3,
            EsfSensorStatusTime::Invalid => 4,
        }
    }

    /// The raw value of this variant.
    pub fn into_raw(self) -> (r: u8)
        ensures
            r == self.spec_into_raw(),
    {
        match self {
            EsfSensorStatusTime::NoData => 0,
            EsfSensorStatusTime::OnReceptionFirstByte => 1,
            EsfSensorStatusTime::OnEventInput => 2,
            EsfSensorStatusTime::TimeTagFromData => 3,
            EsfSensorStatusTime::Invalid => 4,
        }
    }
}

/// The variant a raw value stands for.
pub open spec fn sensor_type_of(x: u8) -> EsfSensorType {
    if x == 0 {
        EsfSensorType::NoSensor
    } else if x == 5 {
        EsfSensorType::GyroZ
    } else if x == 6 {
        EsfSensorType::FrontLeftWheelTicks
    } else if x == 7 {
        EsfSensorType::FrontRightWheelTicks
    } else if x == 8 {
        EsfSensorType::RearLeftWheelTicks
    } else if x == 9 {
        EsfSensorType::RearRightWheelTicks
    } else if x == 10 {
        EsfSensorType::SpeedTick
    } else if x == 11 {
        EsfSensorType::Speed
    } else if x == 12 {
        EsfSensorType::GyroTemp
    } else if x == 13 {
        EsfSensorType::GyroY
    } else if x == 14 {
        EsfSensorType::GyroX
    } else if x == 16 {
        EsfSensorType::AccX
    } else if x == 17 {
        EsfSensorType::AccY
    } else if x == 18 {
        EsfSensorType::AccZ
    } else {
        EsfSensorType::Invalid
    }
}

impl From<u8> for EsfSensorType {
    fn from(x: u8) -> (r: Self) {
        match x {
            0 => EsfSensorType::NoSensor,
            5 => EsfSensorType::GyroZ,
            6 => EsfSensorType::FrontLeftWheelTicks,
            7 => EsfSensorType::FrontRightWheelTicks,
            8 => EsfSensorType::RearLeftWheelTicks,
            9 => EsfSensorType::RearRightWheelTicks,
            10 => EsfSensorType::SpeedTick,
            11 => EsfSensorType::Speed,
            12 => EsfSensorType::GyroTemp,
            13 => EsfSensorType::GyroY,
            14 => EsfSensorType::GyroX,
            16 => EsfSensorType::AccX,
            17 => EsfSensorType::AccY,
            18 => EsfSensorType::AccZ,
            _ => EsfSensorType::Invalid,
        }
    }
}

impl vstd::std_specs::convert::FromSpecImpl<u8> for EsfSensorType {
    open spec fn obeys_from_spec() -> bool {
        true
    }

    open spec fn from_spec(x: u8) -> EsfSensorType {
        sensor_type_of(x)
    }
}

/// The variant a raw value stands for.
pub open spec fn calibration_of(x: u8) -> EsfSensorStatusCalibration {
    if x == 0 {
        EsfSensorStatusCalibration::NotCalibrated
    } else if x == 1 {
        EsfSensorStatusCalibration::Calibrating
    } else if x == 2 || x == 3 {
        EsfSensorStatusCalibration::Calibrated
    } else {
        EsfSensorStatusCalibration::Invalid
    }
}

impl From<u8> for EsfSensorStatusCalibration {
    fn from(x: u8) -> (r: Self) {
        match x {
            0 => EsfSensorStatusCalibration::NotCalibrated,
            1 => EsfSensorStatusCalibration::Calibrating,
            2 | 3 => EsfSensorStatusCalibration::Calibrated,
            _ => EsfSensorStatusCalibration::Invalid,
        }
    }
}

impl vstd::std_specs::convert::FromSpecImpl<u8> for EsfSensorStatusCalibration {
    open spec fn obeys_from_spec() -> bool {
        true
    }

    open spec fn from_spec(x: u8) -> EsfSensorStatusCalibration {
        calibration_of(x)
    }
}

/// The variant a raw value stands for.
pub open spec fn time_status_of(x: u8) -> EsfSensorStatusTime {
    if x == 0 {
        EsfSensorStatusTime::NoData
    } else if x == 1 {
        EsfSensorStatusTime::OnReceptionFirstByte
    } else if x == 2 {
        EsfSensorStatusTime::OnEventInput
    } else if x == 3 {
        EsfSensorStatusTime::TimeTagFromData
    } else {
        EsfSensorStatusTime::Invalid
    }
}

impl From<u8> for EsfSensorStatusTime {
    fn from(x: u8) -> (r: Self) {
        match x {
            0 => EsfSensorStatusTime::NoData,
            1 => EsfSensorStatusTime::OnReceptionFirstByte,
            2 => EsfSensorStatusTime::OnEventInput,
            3 => EsfSensorStatusTime::TimeTagFromData,
            _ => EsfSensorStatusTime::Invalid,
        }
    }
}

impl vstd::std_specs::convert::FromSpecImpl<u8> for EsfSensorStatusTime {
    open spec fn obeys_from_spec() -> bool {
        true
    }

    open spec fn from_spec(x: u8) -> EsfSensorStatusTime {
        time_status_of(x)
    }
}
/// The class, message id and longest payload of each packet type of this
/// module.
pub proof fn lemma_packet_ids()
    ensures
        EsfStatus::CLASS == 0x10,
        EsfStatus::ID == 0x10,
        EsfStatus::MAX_PAYLOAD_LEN == 1240,
{
}


/// The sensor types, calibration states and time-tag states of ESF-STATUS as
/// the u-blox protocol numbers them, and the variant each raw value is read
/// as (values the protocol leaves unassigned are read as invalid).
pub proof fn lemma_sensor_status_codes()
    ensures
        EsfSensorType::NoSensor.spec_into_raw() == 0,
        EsfSensorType::GyroZ.spec_into_raw() == 5,
        EsfSensorType::FrontLeftWheelTicks.spec_into_raw() == 6,
        EsfSensorType::FrontRightWheelTicks.spec_into_raw() == 7,
        EsfSensorType::RearLeftWheelTicks.spec_into_raw() == 8,
        EsfSensorType::RearRightWheelTicks.spec_into_raw() == 9,
        EsfSensorType::SpeedTick.spec_into_raw() == 10,
        EsfSensorType::Speed.spec_into_raw() == 11,
        EsfSensorType::GyroTemp.spec_into_raw() == 12,
        EsfSensorType::GyroY.spec_into_raw() == 13,
        EsfSensorType::GyroX.spec_into_raw() == 14,
        EsfSensorType::AccX.spec_into_raw() == 16,
        EsfSensorType::AccY.spec_into_raw() == 17,
        EsfSensorType::AccZ.spec_into_raw() == 18,
        EsfSensorType::Invalid.spec_into_raw() == 19,
        sensor_type_of(0) == EsfSensorType::NoSensor,
        sensor_type_of(5) == EsfSensorType::GyroZ,
        sensor_type_of(6) == EsfSensorType::FrontLeftWheelTicks,
        sensor_type_of(7) == EsfSensorType::FrontRightWheelTicks,
        sensor_type_of(8) == EsfSensorType::RearLeftWheelTicks,
        sensor_type_of(9) == EsfSensorType::RearRightWheelTicks,
        sensor_type_of(10) == EsfSensorType::SpeedTick,
        sensor_type_of(11) == EsfSensorType::Speed,
        sensor_type_of(12) == EsfSensorType::GyroTemp,
        sensor_type_of(13) == EsfSensorType::GyroY,
        sensor_type_of(14) == EsfSensorType::GyroX,
        sensor_type_of(16) == EsfSensorType::AccX,
        sensor_type_of(17) == EsfSensorType::AccY,
        sensor_type_of(18) == EsfSensorType::AccZ,
        sensor_type_of(1) == EsfSensorType::Invalid,
        sensor_type_of(15) == EsfSensorType::Invalid,
        forall|x: u8| 19 <= x ==> #[trigger] sensor_type_of(x) == EsfSensorType::Invalid,
        EsfSensorStatusCalibration::NotCalibrated.spec_into_raw() == 0,
        EsfSensorStatusCalibration::Calibrating.spec_into_raw() == 1,
        EsfSensorStatusCalibration::Calibrated.spec_into_raw() == 2,
        calibration_of(0) == EsfSensorStatusCalibration::NotCalibrated,
        calibration_of(1) == EsfSensorStatusCalibration::Calibrating,
        calibration_of(2) == EsfSensorStatusCalibration::Calibrated,
        calibration_of(3) == EsfSensorStatusCalibration::Calibrated,
        EsfSensorStatusTime::NoData.spec_into_raw() == 0,
        EsfSensorStatusTime::OnReceptionFirstByte.spec_into_raw() == 1,
        EsfSensorStatusTime::OnEventInput.spec_into_raw() == 2,
        EsfSensorStatusTime::TimeTagFromData.spec_into_raw() == 3,
        time_status_of(0) == EsfSensorStatusTime::NoData,
        time_status_of(1) == EsfSensorStatusTime::OnReceptionFirstByte,
        time_status_of(2) == EsfSensorStatusTime::OnEventInput,
        time_status_of(3) == EsfSensorStatusTime::TimeTagFromData,
        forall|x: u8| 4 <= x ==> #[trigger] time_status_of(x) == EsfSensorStatusTime::Invalid,
{
}

/// The initialisation states of ESF-STATUS as the u-blox protocol numbers
/// them: 0 off, 1 initializing, 2 initialized (the mount alignment also
/// reads 3 as initialized).
pub proof fn lemma_init_status_codes()
    ensures
        EsfStatusWheelTickInit::Off.spec_into_raw() == 0,
        EsfStatusWheelTickInit::Initializing.spec_into_raw() == 1,
        EsfStatusWheelTickInit::Initialized.spec_into_raw() == 2,
        four_state(0) == EsfStatusWheelTickInit::Off,
        four_state(1) == EsfStatusWheelTickInit::Initializing,
        four_state(2) == EsfStatusWheelTickInit::Initialized,
        EsfStatusMountAngle::Off.spec_into_raw() == 0,
        EsfStatusMountAngle::Initializing.spec_into_raw() == 1,
        EsfStatusMountAngle::Initialized.spec_into_raw() == 2,
        mount_angle_of(0) == EsfStatusMountAngle::Off,
        mount_angle_of(1) == EsfStatusMountAngle::Initializing,
        mount_angle_of(2) == EsfStatusMountAngle::Initialized,
        mount_angle_of(3) == EsfStatusMountAngle::Initialized,
        EsfStatusInsInit::Off.spec_into_raw() == 0,
        EsfStatusInsInit::Initializing.spec_into_raw() == 1,
        EsfStatusInsInit::Initialized.spec_into_raw() == 2,
        ins_init_of(0) == EsfStatusInsInit::Off,
        ins_init_of(1) == EsfStatusInsInit::Initializing,
        ins_init_of(2) == EsfStatusInsInit::Initialized,
        EsfStatusImuInit::Off.spec_into_raw() == 0,
        EsfStatusImuInit::Initializing.spec_into_raw() == 1,
        EsfStatusImuInit::Initialized.spec_into_raw() == 2,
        imu_init_of(0) == EsfStatusImuInit::Off,
        imu_init_of(1) == EsfStatusImuInit::Initializing,
        imu_init_of(2) == EsfStatusImuInit::Initialized,
{
}

} // verus!
