//! ESF-MEAS: external sensor measurements, received and sent.

use vstd::prelude::*;

use crate::error::ParserError;
use crate::ubx_packets::bytes_le::{le_u16, le_u32, read_u16_le, read_u32_le, u16_le_bytes, u16_to_le, u32_le_bytes, u32_to_le};
use crate::ubx_packets::frame::{build_frame, extend_vec, ubx_frame};
use crate::ubx_packets::packets::esf_status::{sensor_type_of, EsfSensorType};
use crate::ubx_packets::UbxPacketMeta;

verus! {

/// The 23 magnitude bits of a measurement word.
pub const DATA_BITMASK: u32 = 0x7FFFFF;
/// The bit that marks a measurement as negative (backward).
pub const SIGN_BIT: u32 = 0x800000;

/// External sensor measurements: an 8-byte header, one 4-byte word per
/// measurement and an optional 4-byte calibration tag.
pub struct EsfMeas;

impl UbxPacketMeta for EsfMeas {
    const CLASS: u8 = 0x10;
    const ID: u8 = 0x02;
    const MAX_PAYLOAD_LEN: u16 = 1240;

    fn fixed_payload_len() -> (r: Option<u16>)
        ensures
            r is None,
    {
        None
    }
}

impl EsfMeas {
    /// The calibration tag held in `bytes`: present when they are exactly
    /// four.
    fn calib_tag(bytes: &[u8]) -> (r: Option<u32>)
        ensures
            r == (if bytes@.len() == 4 { Some(le_u32(bytes@, 0)) } else { None::<u32> }),
    {
        if bytes.len() == 4 {
            Some(read_u32_le(bytes, 0))
        } else {
            None
        }
    }

    /// The bytes a calibration tag is written as: none when it is absent.
    fn calib_tag_into_bytes(x: Option<u32>) -> (r: Vec<u8>)
        ensures
            r@ == calib_tag_bytes(x),
    {
        let mut out: Vec<u8> = Vec::new();
        match x {
            Some(v) => {
                let b = u32_to_le(v);
                extend_vec(&mut out, b.as_slice());
            },
            None => {},
        }
        out
    }
}

/// The bytes of an optional calibration tag.
pub open spec fn calib_tag_bytes(x: Option<u32>) -> Seq<u8> {
    match x {
        Some(v) => u32_le_bytes(v),
        None => Seq::empty(),
    }
}

/// Number of measurements the flags announce (bits 11 to 15).
pub open spec fn flags_num_meas(flags: u16) -> u8 {
    ((flags / 2048) % 32) as u8
}

/// Whether the flags announce a calibration tag (bit 3).
pub open spec fn flags_calib_tag_valid(flags: u16) -> bool {
    (flags / 8) % 2 != 0
}

/// Bytes taken by the measurements a payload with these flags holds.
pub open spec fn meas_data_len(flags: u16) -> int {
    4 * flags_num_meas(flags)
}

/// Bytes taken by the calibration tag a payload with these flags holds.
pub open spec fn meas_calib_len(flags: u16) -> int {
    if flags_calib_tag_valid(flags) {
        4
    } else {
        0
    }
}

/// Payload of an [EsfMeas] packet.
pub struct EsfMeasRef<'a>(pub &'a [u8]);

impl<'a> EsfMeasRef<'a> {
    /// The outcome of validating a payload: the header, the announced
    /// measurements and calibration tag must all be there.
    pub open spec fn spec_validate(payload: Seq<u8>) -> Result<(), ParserError> {
        if payload.len() < 8 {
            Err(ParserError::InvalidPacketLen { packet: "EsfMeas", expect: 8, got: payload.len() as usize })
        } else {
            let need = 8 + meas_data_len(le_u16(payload, 4)) + meas_calib_len(le_u16(payload, 4));
            if payload.len() < need {
                Err(ParserError::InvalidPacketLen { packet: "EsfMeas", expect: need as usize, got: payload.len() as usize })
            } else {
                Ok(())
            }
        }
    }

    /// Checks that `payload` is a valid [EsfMeas] payload.
    pub fn validate(payload: &[u8]) -> (r: Result<(), ParserError>)
        ensures
            r == Self::spec_validate(payload@),
    {
        if payload.len() < 8 {
            return Err(ParserError::InvalidPacketLen { packet: "EsfMeas", expect: 8, got: payload.len() });
        }
        let flags = EsfMeasFlags(read_u16_le(payload, 4));
        let calib: usize = if flags.calib_tag_valid() {
            4
        } else {
            0
        };
        let need = 8 + flags.num_meas() as usize * 4 + calib;
        if payload.len() < need {
            return Err(ParserError::InvalidPacketLen { packet: "EsfMeas", expect: need, got: payload.len() });
        }
        Ok(())
    }

    /// Length of the payload.
    pub fn payload_len(&self) -> (r: usize)
        ensures
            r == self.0@.len(),
    {
        self.0.len()
    }

    /// Time tag of the measurements.
    pub fn itow(&self) -> (r: u32)
        requires
            Self::spec_validate(self.0@) is Ok,
        ensures
            r == le_u32(self.0@, 0),
    {
        read_u32_le(self.0, 0)
    }

    /// Flags.
    pub fn flags(&self) -> (r: EsfMeasFlags)
        requires
            Self::spec_validate(self.0@) is Ok,
        ensures
            r.0 == le_u16(self.0@, 4),
    {
        EsfMeasFlags(read_u16_le(self.0, 4))
    }

    /// Identifier of the data provider.
    pub fn id(&self) -> (r: u16)
        requires
            Self::spec_validate(self.0@) is Ok,
        ensures
            r == le_u16(self.0@, 6),
    {
        read_u16_le(self.0, 6)
    }

    /// Bytes taken by the measurements.
    fn data_len(&self) -> (r: usize)
        requires
            Self::spec_validate(self.0@) is Ok,
        ensures
            r == meas_data_len(le_u16(self.0@, 4)),
    {
        self.flags().num_meas() as usize * 4
    }

    /// Bytes taken by the calibration tag.
    fn calib_tag_len(&self) -> (r: usize)
        requires
            Self::spec_validate(self.0@) is Ok,
        ensures
            r == meas_calib_len(le_u16(self.0@, 4)),
    {
        if self.flags().calib_tag_valid() {
            4
        } else {
            0
        }
    }

    /// The measurements.
    pub fn data(&self) -> (r: EsfMeasDataIter<'a>)
        requires
            Self::spec_validate(self.0@) is Ok,
        ensures
            r matches EsfMeasDataIter::Bytes { data, offset } && offset == 0 && data@ == self.0@.subrange(
                8,
                8 + meas_data_len(le_u16(self.0@, 4)),
            ),
    {
        let n = self.data_len();
        EsfMeasDataIter::new(crate::buffer::slice_subrange(self.0, 8, 8 + n))
    }

    /// The calibration tag, when the flags announce one.
    pub fn calib_tag(&self) -> (r: Option<u32>)
        requires
            Self::spec_validate(self.0@) is Ok,
        ensures
            ({
                let f = le_u16(self.0@, 4);
                r == (if flags_calib_tag_valid(f) {
                    Some(le_u32(self.0@, 8 + meas_data_len(f)))
                } else {
                    None::<u32>
                })
            }),
    {
        let start = 8 + self.data_len();
        let len = self.calib_tag_len();
        let bytes = crate::buffer::slice_subrange(self.0, start, start + len);
        proof {
            assert(bytes@ =~= self.0@.subrange(start as int, start + len));
            if len == 4 {
                assert(le_u32(bytes@, 0) == le_u32(self.0@, start as int));
            }
        }
        EsfMeas::calib_tag(bytes)
    }
}

/// One measurement: the kind of sensor and a signed value.
#[derive(Debug, Copy, Clone, PartialEq, Eq, Structural)]
pub struct EsfMeasData {
    pub data_type: EsfSensorType,
    pub data_field: i32,
}

/// The measurement a data word holds: the kind in bits 24 to 29, the
/// magnitude in bits 0 to 22, and bit 23 marking a backward (negative)
/// value, which is read as the negation of the 24-bit field.
pub open spec fn meas_of_word(w: u32) -> EsfMeasData {
    let m = (w % 0x80_0000) as int;
    let backward = (w / 0x80_0000) % 2 == 1;
    EsfMeasData {
        data_type: sensor_type_of(((w / 0x100_0000) % 64) as u8),
        data_field: (if backward { -(m + 0x80_0000) } else { m }) as i32,
    }
}

/// The data word a measurement is written as: its magnitude bits, the sign
/// bit for a negative value, and its kind.
pub open spec fn word_of_meas(d: EsfMeasData) -> u32 {
    let v = d.data_field as int;
    let mag = (if v < 0 { v + 0x1_0000_0000 } else { v }) % 0x80_0000;
    let sign = if v < 0 { 0x80_0000int } else { 0 };
    (mag + sign + (d.data_type.spec_into_raw() % 64) * 0x100_0000) as u32
}

impl EsfMeasData {
    /// The magnitude and sign bits of a value.
    fn encode_magnitude_and_sign(value: i32) -> (r: u32)
        ensures
            r == (if value < 0 { value + 0x1_0000_0000 } else { value as int }) % 0x80_0000 + (if value < 0 {
                0x80_0000int
            } else {
                0
            }),
    {
        // the low 23 bits of the two's complement representation
        if value < 0 {
            (((value as i64) + 0x1_0000_0000) % 0x80_0000) as u32 + SIGN_BIT
        } else {
            (value % 0x80_0000) as u32
        }
    }

    /// The kind bits of a sensor type.
    fn encode_type_bits(t: EsfSensorType) -> (r: u32)
        ensures
            r == (t.spec_into_raw() % 64) * 0x100_0000,
    {
        let raw = t.into_raw() as u32;
        proof {
            assert((raw & 0x3F) << 24 == (raw % 64) * 0x100_0000) by (bit_vector)
                requires
                    raw < 256,
            ;
        }
        (raw & 0x3F) << 24
    }

    /// The data word of this measurement.
    fn encode_data_block(&self) -> (r: u32)
        ensures
            r == word_of_meas(*self),
    {
        let a = Self::encode_magnitude_and_sign(self.data_field);
        let b = Self::encode_type_bits(self.data_type);
        proof {
            assert(a & b == 0 ==> a | b == a + b) by (bit_vector);
            assert(a < 0x100_0000 && b % 0x100_0000 == 0 ==> a & b == 0) by (bit_vector);
        }
        a | b
    }

    /// Appends the four bytes of this measurement to `out` and returns
    /// their number.
    pub fn extend_to(&self, out: &mut Vec<u8>) -> (r: usize)
        ensures
            final(out)@ == old(out)@ + u32_le_bytes(word_of_meas(*self)),
            r == 4,
    {
        let bytes = u32_to_le(self.encode_data_block());
        extend_vec(out, bytes.as_slice());
        4
    }

    /// -1 for a negative value, 1 otherwise.
    pub fn direction(&self) -> (r: i8)
        ensures
            r == (if self.data_field < 0 { -1int } else { 1int }),
    {
        if self.data_field < 0 {
            -1
        } else {
            1
        }
    }
}

/// The unit that a measurement's magnitude counts in.
#[derive(Debug, Copy, Clone, PartialEq, Eq, Structural)]
pub enum SensorScale {
    /// Speed, in 1e-3 m/s.
    MilliMetresPerSecond,
    /// Angular rate, in 2^-12 deg/s.
    GyroRate,
    /// Acceleration, in 2^-10 m/s^2.
    Acceleration,
    /// Gyroscope temperature, in 1e-2 deg C.
    CentiDegrees,
}

/// A measurement's value before it is scaled to a physical unit.
#[derive(Debug, Copy, Clone, PartialEq, Eq, Structural)]
pub enum SensorReading {
    /// A signed tick count.
    Tick(i32),
    /// A count of the given unit.
    Scaled(i32, SensorScale),
    /// A kind of sensor whose value is reported as zero.
    Zero,
}

/// The 23 magnitude bits of a data field.
pub open spec fn field_magnitude(field: i32) -> i32 {
    field & 0x7F_FFFF
}

/// What a measurement reads as: wheel and speed ticks signed by the
/// direction, speed signed and counted in 1e-3 m/s, angular rate,
/// acceleration and temperature as their magnitude in their units, any
/// other kind as zero.
pub open spec fn spec_reading(d: EsfMeasData) -> SensorReading {
    let m = field_magnitude(d.data_field);
    let signed: int = if d.data_field < 0 { -m } else { m as int };
    match d.data_type {
        EsfSensorType::FrontLeftWheelTicks | EsfSensorType::FrontRightWheelTicks
        | EsfSensorType::RearLeftWheelTicks | EsfSensorType::RearRightWheelTicks
        | EsfSensorType::SpeedTick => SensorReading::Tick(signed as i32),
        EsfSensorType::Speed => SensorReading::Scaled(
            signed as i32,
            SensorScale::MilliMetresPerSecond,
        ),
        EsfSensorType::GyroX | EsfSensorType::GyroY | EsfSensorType::GyroZ => SensorReading::Scaled(
            m,
            SensorScale::GyroRate,
        ),
        EsfSensorType::AccX | EsfSensorType::AccY | EsfSensorType::AccZ => SensorReading::Scaled(
            m,
            SensorScale::Acceleration,
        ),
        EsfSensorType::GyroTemp => SensorReading::Scaled(m, SensorScale::CentiDegrees),
        _ => SensorReading::Zero,
    }
}

impl EsfMeasData {
    /// The measurement's value, as a count of its unit.
    pub fn reading(&self) -> (r: SensorReading)
        ensures
            r == spec_reading(*self),
    {
        let field = self.data_field;
        let m: i32 = field & 0x7F_FFFF;
        proof {
            assert(0 <= field & 0x7F_FFFFi32 <= 0x7F_FFFF) by (bit_vector);
        }
        // the magnitude carries the direction's sign
        let signed: i32 = if self.direction() < 0 { -m } else { m };
        match self.data_type {
            EsfSensorType::FrontLeftWheelTicks | EsfSensorType::FrontRightWheelTicks
            | EsfSensorType::RearLeftWheelTicks | EsfSensorType::RearRightWheelTicks
            | EsfSensorType::SpeedTick => SensorReading::Tick(signed),
            EsfSensorType::Speed => SensorReading::Scaled(signed, SensorScale::MilliMetresPerSecond),
            EsfSensorType::GyroX | EsfSensorType::GyroY | EsfSensorType::GyroZ => SensorReading::Scaled(
                m,
                SensorScale::GyroRate,
            ),
            EsfSensorType::AccX | EsfSensorType::AccY | EsfSensorType::AccZ => SensorReading::Scaled(
                m,
                SensorScale::Acceleration,
            ),
            EsfSensorType::GyroTemp => SensorReading::Scaled(m, SensorScale::CentiDegrees),
            _ => SensorReading::Zero,
        }
    }
}

/// A measurement word written by [EsfMeasData::extend_to] is read back as
/// the same measurement, for every kind of sensor and every value in
/// `0..2^23` (negative values are written with their low bits and read as
/// the negated 24-bit field).
pub proof fn lemma_meas_word_roundtrip(d: EsfMeasData)
    requires
        0 <= d.data_field < 0x80_0000,
    ensures
        meas_of_word(word_of_meas(d)) == d,
{
    let raw = d.data_type.spec_into_raw();
    assert(raw < 64);
    assert(sensor_type_of(raw) == d.data_type);
}

/// Flags of an [EsfMeas] packet.
#[derive(Debug, Copy, Clone, PartialEq, Eq, Structural)]
pub struct EsfMeasFlags(pub u16);

impl Default for EsfMeasFlags {
    fn default() -> (r: Self)
        ensures
            r == EsfMeasFlags(0),
    {
        EsfMeasFlags(0)
    }
}

impl EsfMeasFlags {
    /// The flag bits.
    pub fn into_raw(self) -> (r: u16)
        ensures
            r == self.0,
    {
        self.0
    }

    /// Time mark signal, read as bit 1 alone (0 or 2).
    pub fn time_mark_sent(self) -> (r: u8)
        ensures
            r == (self.0 / 2) % 2 * 2,
    {
        ((self.0 / 2) % 2 * 2) as u8
    }

    /// Time mark edge (bit 2).
    pub fn time_mark_edge(self) -> (r: bool)
        ensures
            r == ((self.0 / 4) % 2 != 0),
    {
        (self.0 / 4) % 2 != 0
    }

    /// Whether a calibration tag is present (bit 3).
    pub fn calib_tag_valid(self) -> (r: bool)
        ensures
            r == flags_calib_tag_valid(self.0),
    {
        (self.0 / 8) % 2 != 0
    }

    /// Number of measurements (bits 11 to 15).
    pub fn num_meas(self) -> (r: u8)
        ensures
            r == flags_num_meas(self.0),
    {
        ((self.0 / 2048) % 32) as u8
    }

    /// The flags with the calibration tag bit set or cleared.
    pub fn enable_calibration_tag(self, valid: bool) -> (r: Self)
        ensures
            r.0 == self.0 - (self.0 / 8) % 2 * 8 + (if valid { 8int } else { 0 }),
    {
        let without = self.0 - (self.0 / 8) % 2 * 8;
        if valid {
            Self(without + 8)
        } else {
            Self(without)
        }
    }

    /// The flags with the measurement count set to the low five bits of `n`.
    fn set_measurements_count(self, n: u8) -> (r: Self)
        ensures
            r.0 == self.0 % 2048 + (n % 32) * 2048,
    {
        Self(self.0 % 2048 + (n as u16 % 32) * 2048)
    }
}

/// Builder of [EsfMeasFlags].
pub struct EsfMeasFlagsBuilder {
    time_mark_sent: u8,
    time_mark_edge: bool,
    calib_tag_valid: bool,
    num_meas: u8,
}

impl EsfMeasFlagsBuilder {
    /// The fields the builder has been given.
    pub closed spec fn fields(&self) -> (u8, bool, bool, u8) {
        (self.time_mark_sent, self.time_mark_edge, self.calib_tag_valid, self.num_meas)
    }

    /// A builder with every field zero.
    pub fn new() -> (r: Self)
        ensures
            r.fields() == (0u8, false, false, 0u8),
    {
        Self { time_mark_sent: 0, time_mark_edge: false, calib_tag_valid: false, num_meas: 0 }
    }

    /// Sets the time mark signal (its two low bits).
    pub fn time_mark_sent(self, sent: u8) -> (r: Self)
        ensures
            r.fields() == ((sent % 4) as u8, self.fields().1, self.fields().2, self.fields().3),
    {
        let mut s = self;
        s.time_mark_sent = sent & 0x3;
        proof {
            assert(sent & 3 == sent % 4) by (bit_vector);
        }
        s
    }

    /// Sets the time mark edge.
    pub fn time_mark_edge(self, edge: bool) -> (r: Self)
        ensures
            r.fields() == (self.fields().0, edge, self.fields().2, self.fields().3),
    {
        let mut s = self;
        s.time_mark_edge = edge;
        s
    }

    /// Sets whether a calibration tag is present.
    pub fn calib_tag_valid(self, valid: bool) -> (r: Self)
        ensures
            r.fields() == (self.fields().0, self.fields().1, valid, self.fields().3),
    {
        let mut s = self;
        s.calib_tag_valid = valid;
        s
    }

    /// Sets the number of measurements (its five low bits).
    pub fn num_meas(self, num: u8) -> (r: Self)
        ensures
            r.fields() == (self.fields().0, self.fields().1, self.fields().2, (num % 32) as u8),
    {
        let mut s = self;
        s.num_meas = num & 0x1F;
        proof {
            assert(num & 0x1f == num % 32) by (bit_vector);
        }
        s
    }

    /// The flags: the time mark signal shifted to bit 1, the edge to bit 2
    /// (both or-ed), the calibration bit 3 and the count at bit 11.
    pub fn build(self) -> (r: EsfMeasFlags)
        requires
            self.fields().0 < 4,
            self.fields().3 < 32,
        ensures
            r.0 == ((self.fields().0 as u16) << 1u16) | ((if self.fields().1 { 1u16 } else { 0u16 }) << 2u16) | ((
            if self.fields().2 { 1u16 } else { 0u16 }) << 3u16) | ((self.fields().3 as u16) << 11u16),
    {
        let mut flags = 0u16;
        flags = flags | ((self.time_mark_sent as u16) << 1u16);
        flags = flags | ((if self.time_mark_edge { 1u16 } else { 0u16 }) << 2u16);
        flags = flags | ((if self.calib_tag_valid { 1u16 } else { 0u16 }) << 3u16);
        flags = flags | ((self.num_meas as u16) << 11u16);
        proof {
            let a = (self.time_mark_sent as u16) << 1u16;
            assert(0u16 | a == a) by (bit_vector);
        }
        EsfMeasFlags(flags)
    }
}

impl Default for EsfMeasFlagsBuilder {
    fn default() -> (r: Self)
        ensures
            r.fields() == (0u8, false, false, 0u8),
    {
        Self::new()
    }
}

/// Iterator over measurements: read from the bytes of a received packet, or
/// taken from a slice when a packet is built.
pub enum EsfMeasDataIter<'a> {
    Bytes { data: &'a [u8], offset: usize },
    Slice { items: &'a [EsfMeasData], index: usize },
}

/// The measurements held in `s`, one per whole 4-byte word.
pub open spec fn meas_in(s: Seq<u8>) -> Seq<EsfMeasData>
    decreases s.len(),
{
    if s.len() < 4 {
        Seq::empty()
    } else {
        seq![meas_of_word(le_u32(s, 0))] + meas_in(s.skip(4))
    }
}

/// The bytes of measurements written one after the other.
pub open spec fn meas_bytes(ds: Seq<EsfMeasData>) -> Seq<u8>
    decreases ds.len(),
{
    if ds.len() == 0 {
        Seq::empty()
    } else {
        u32_le_bytes(word_of_meas(ds[0])) + meas_bytes(ds.skip(1))
    }
}

impl<'a> EsfMeasDataIter<'a> {
    /// The measurements the iterator yields.
    pub open spec fn remaining(&self) -> Seq<EsfMeasData> {
        match *self {
            EsfMeasDataIter::Bytes { data, offset } => meas_in(data@.skip(offset as int)),
            EsfMeasDataIter::Slice { items, index } => items@.skip(index as int),
        }
    }

    /// Offsets in range.
    pub open spec fn well_formed(&self) -> bool {
        match *self {
            EsfMeasDataIter::Bytes { data, offset } => offset <= data@.len(),
            EsfMeasDataIter::Slice { items, index } => index <= items@.len(),
        }
    }

    /// An iterator over the measurements held in `bytes`.
    fn new(bytes: &'a [u8]) -> (r: Self)
        ensures
            r == (EsfMeasDataIter::Bytes { data: bytes, offset: 0 }),
    {
        EsfMeasDataIter::Bytes { data: bytes, offset: 0 }
    }

    /// An iterator over the given measurements.
    fn from_slice(data: &'a [EsfMeasData]) -> (r: Self)
        ensures
            r == (EsfMeasDataIter::Slice { items: data, index: 0 }),
    {
        EsfMeasDataIter::Slice { items: data, index: 0 }
    }

    /// Whether `bytes` is a whole number of words.
    fn is_valid(bytes: &[u8]) -> (r: bool)
        ensures
            r == (bytes@.len() % 4 == 0),
    {
        bytes.len() % 4 == 0
    }

    /// The next measurement, or `None` when there is none left.
    pub fn next(&mut self) -> (r: Option<EsfMeasData>)
        requires
            old(self).well_formed(),
        ensures
            final(self).well_formed(),
            old(self).remaining().len() == 0 ==> r is None && final(self).remaining().len() == 0,
            old(self).remaining().len() > 0 ==> r == Some(old(self).remaining()[0]) && final(self).remaining()
                == old(self).remaining().skip(1),
    {
        match self {
            EsfMeasDataIter::Bytes { data, offset } => {
                let d: &[u8] = *data;
                let o: usize = *offset;
                if d.len() < 4 || o > d.len() - 4 {
                    return None;
                }
                *offset = o + 4;
                let ghost s = d@.skip(o as int);
                proof {
                    assert(s.skip(4) =~= d@.skip(o + 4));
                    assert(le_u32(d@, o as int) == le_u32(s, 0));
                }
                let w = read_u32_le(d, o);
                Some(Self::decode_word(w))
            },
            EsfMeasDataIter::Slice { items, index } => {
                let b: &[EsfMeasData] = *items;
                let i: usize = *index;
                if i >= b.len() {
                    return None;
                }
                *index = i + 1;
                proof {
                    assert(b@.skip(i as int).skip(1) =~= b@.skip(i + 1));
                }
                Some(b[i])
            },
        }
    }

    /// The measurement a data word holds.
    fn decode_word(data: u32) -> (r: EsfMeasData)
        ensures
            r == meas_of_word(data),
    {
        let mut data_field = (data & DATA_BITMASK) as i32;
        let backward = ((data >> 23u32) & 0x01) == 1;
        proof {
            assert(data & 0x7FFFFF == data % 0x80_0000) by (bit_vector);
            assert((data >> 23u32) & 1 == (data / 0x80_0000) % 2) by (bit_vector);
            assert((data >> 24u32) & 0x3F == (data / 0x100_0000) % 64) by (bit_vector);
        }
        if backward {
            // the field holds the magnitude of a negative value
            proof {
                let f = data_field;
                assert(0 <= f < 0x80_0000 ==> f ^ 0x800000 == f + 0x80_0000) by (bit_vector);
            }
            data_field = data_field ^ (SIGN_BIT as i32);
            data_field = -data_field;
        }
        EsfMeasData { data_type: EsfSensorType::from(((data >> 24u32) & 0x3F) as u8), data_field }
    }
}

impl<'a> Default for EsfMeasDataIter<'a> {
    fn default() -> (r: Self)
        ensures
            r.well_formed(),
            r.remaining() == Seq::<EsfMeasData>::empty(),
    {
        let none: &[EsfMeasData] = &[];
        Self::from_slice(none)
    }
}

/// Builder of [EsfMeas] packets.
pub struct EsfMeasBuilder<'a> {
    pub itow: u32,
    pub flags: EsfMeasFlags,
    pub id: u16,
    pub data: EsfMeasDataIter<'a>,
    pub calib_tag: Option<u32>,
}

/// The payload a builder writes.
pub open spec fn esf_meas_payload(b: EsfMeasBuilder) -> Seq<u8> {
    u32_le_bytes(b.itow) + u16_le_bytes(b.flags.0) + u16_le_bytes(b.id) + meas_bytes(b.data.remaining())
        + calib_tag_bytes(b.calib_tag)
}

impl<'a> Default for EsfMeasBuilder<'a> {
    fn default() -> (r: Self)
        ensures
            r.itow == 0,
            r.flags.0 == 0,
            r.id == 0,
            r.data.well_formed(),
            r.data.remaining() == Seq::<EsfMeasData>::empty(),
            r.calib_tag is None,
    {
        EsfMeasBuilder { itow: 0, flags: EsfMeasFlags(0), id: 0, data: EsfMeasDataIter::default(), calib_tag: None }
    }
}

impl<'a> EsfMeasBuilder<'a> {
    /// Sets the measurements, and their count in the flags (the five low
    /// bits of the number of measurements).
    pub fn with_measurement_data(self, data: &'a [EsfMeasData]) -> (r: Self)
        ensures
            r.itow == self.itow,
            r.id == self.id,
            r.calib_tag == self.calib_tag,
            r.data == (EsfMeasDataIter::Slice { items: data, index: 0 }),
            r.flags.0 == self.flags.0 % 2048 + (data@.len() % 256) % 32 * 2048,
    {
        let mut s = self;
        s.data = EsfMeasDataIter::from_slice(data);
        let n = (data.len() % 256) as u8;
        s.flags = s.flags.set_measurements_count(n);
        s
    }

    /// Sets the calibration tag, and the flag that announces it.
    pub fn with_calib_tag(self, tag: Option<u32>) -> (r: Self)
        ensures
            r.itow == self.itow,
            r.id == self.id,
            r.data == self.data,
            r.calib_tag == tag,
            r.flags.0 == self.flags.0 - (self.flags.0 / 8) % 2 * 8 + (if tag is Some { 8int } else { 0 }),
    {
        let mut s = self;
        s.calib_tag = tag;
        s.flags = s.flags.enable_calibration_tag(tag.is_some());
        s
    }

    /// Appends the whole packet frame to `out`.
    pub fn extend_to(self, out: &mut Vec<u8>)
        requires
            self.data.well_formed(),
            12 + 4 * self.data.remaining().len() <= u16::MAX,
        ensures
            final(out)@ == old(out)@ + ubx_frame(EsfMeas::CLASS, EsfMeas::ID, esf_meas_payload(self)),
    {
        let mut payload: Vec<u8> = Vec::new();
        let itow = u32_to_le(self.itow);
        extend_vec(&mut payload, itow.as_slice());
        let flags = u16_to_le(self.flags.into_raw());
        extend_vec(&mut payload, flags.as_slice());
        let id = u16_to_le(self.id);
        extend_vec(&mut payload, id.as_slice());
        let ghost head = u32_le_bytes(self.itow) + u16_le_bytes(self.flags.0) + u16_le_bytes(self.id);
        let ghost all = self.data.remaining();
        let mut it = self.data;
        let ghost mut k: int = 0;
        proof {
            assert(payload@ =~= head + meas_bytes(all.take(0)));
            assert(all.skip(0) =~= all);
        }
        loop
            invariant_except_break
                it.well_formed(),
                it.remaining() == all.skip(k),
            invariant
                0 <= k <= all.len(),
                payload@ == head + meas_bytes(all.take(k)),
                12 + 4 * all.len() <= u16::MAX,
            ensures
                k == all.len(),
                payload@ == head + meas_bytes(all.take(k)),
            decreases all.len() - k,
        {
            match it.next() {
                Some(d) => {
                    proof {
                        lemma_meas_bytes_push(all.take(k), d);
                        assert(all.take(k).push(d) =~= all.take(k + 1));
                        k = k + 1;
                    }
                    d.extend_to(&mut payload);
                },
                None => {
                    break;
                },
            }
        }
        let tag = EsfMeas::calib_tag_into_bytes(self.calib_tag);
        extend_vec(&mut payload, tag.as_slice());
        proof {
            assert(all.take(k) =~= all);
            lemma_meas_bytes_len(all);
            assert(payload@ =~= esf_meas_payload(self));
        }
        let frame = build_frame(EsfMeas::CLASS, EsfMeas::ID, payload.as_slice());
        extend_vec(out, frame.as_slice());
    }
}

/// Appending a measurement appends its word.
pub proof fn lemma_meas_bytes_push(ds: Seq<EsfMeasData>, d: EsfMeasData)
    ensures
        meas_bytes(ds.push(d)) == meas_bytes(ds) + u32_le_bytes(word_of_meas(d)),
    decreases ds.len(),
{
    if ds.len() == 0 {
        assert(ds.push(d).skip(1) =~= Seq::<EsfMeasData>::empty());
        assert(ds.push(d)[0] == d);
        assert(meas_bytes(Seq::<EsfMeasData>::empty()) =~= Seq::<u8>::empty());
        assert(meas_bytes(ds) =~= Seq::<u8>::empty());
        assert(u32_le_bytes(word_of_meas(d)) + Seq::<u8>::empty() =~= u32_le_bytes(word_of_meas(d)));
        assert(Seq::<u8>::empty() + u32_le_bytes(word_of_meas(d)) =~= u32_le_bytes(word_of_meas(d)));
    } else {
        assert(ds.push(d).skip(1) =~= ds.skip(1).push(d));
        lemma_meas_bytes_push(ds.skip(1), d);
        assert(u32_le_bytes(word_of_meas(ds[0])) + (meas_bytes(ds.skip(1)) + u32_le_bytes(word_of_meas(d)))
            =~= (u32_le_bytes(word_of_meas(ds[0])) + meas_bytes(ds.skip(1))) + u32_le_bytes(
            word_of_meas(d),
        ));
    }
}

/// Each measurement takes four bytes.
pub proof fn lemma_meas_bytes_len(ds: Seq<EsfMeasData>)
    ensures
        meas_bytes(ds).len() == 4 * ds.len(),
    decreases ds.len(),
{
    if ds.len() > 0 {
        lemma_meas_bytes_len(ds.skip(1));
    }
}

/// The class, message id and longest payload of each packet type of this
/// module.
pub proof fn lemma_packet_ids()
    ensures
        EsfMeas::CLASS == 0x10,
        EsfMeas::ID == 0x02,
        EsfMeas::MAX_PAYLOAD_LEN == 1240,
{
}

} // verus!
