use vstd::prelude::*;

use crate::ubx_packets::packets::aid::AidIniBuilder;
use crate::ubx_packets::packets::mga_ini::{MgaIniPosBuilder, MgaIniTimeUtcBuilder};

verus! {

/// A geodetic position in the fixed-point units of the aiding packets:
/// latitude and longitude in 1e-7 degrees, height in centimetres.
#[derive(Debug, Copy, Clone, PartialEq, Eq, Structural)]
pub struct ScaledPosition {
    pub lat: i32,
    pub lon: i32,
    pub alt_cm: i32,
}

/// A UTC instant broken into calendar fields: `month` counts from 1,
/// `nanosecond` may exceed a second during a leap second.
#[derive(Debug, Copy, Clone, PartialEq, Eq, Structural)]
pub struct UtcTime {
    pub year: i32,
    pub month: u32,
    pub day: u32,
    pub hour: u32,
    pub minute: u32,
    pub second: u32,
    pub nanosecond: u32,
}

impl UtcTime {
    /// The fields name a calendar instant of the supported year range.
    pub open spec fn is_valid(&self) -> bool {
        &&& -262_144 < self.year < 262_144
        &&& 1 <= self.month <= 12
        &&& 1 <= self.day <= 31
        &&& self.hour < 24
        &&& self.minute < 60
        &&& self.second < 60
        &&& self.nanosecond < 2_000_000_000
    }

    /// Whether the fields name a calendar instant of the supported year
    /// range.
    pub fn valid(&self) -> (r: bool)
        ensures
            r == self.is_valid(),
    {
        -262_144 < self.year && self.year < 262_144 && 1 <= self.month && self.month <= 12 && 1
            <= self.day && self.day <= 31 && self.hour < 24 && self.minute < 60 && self.second < 60
            && self.nanosecond < 2_000_000_000
    }

    /// The year and zero-based month packed as `(year - 2000) * 100 + month0`,
    /// kept to 16 bits.
    pub open spec fn spec_year_month(&self) -> u16 {
        (((self.year - 2000) * 100 + self.month - 1) % 0x1_0000) as u16
    }

    /// The time of day packed as `hhmmss` decimal digits.
    pub open spec fn spec_hms(&self) -> u32 {
        (self.hour * 10000 + self.minute * 100 + self.second) as u32
    }
}

impl AidIniBuilder {
    /// Sets the latitude, longitude and height, and flags the position as
    /// given in geodetic coordinates.
    pub fn set_position(self, pos: ScaledPosition) -> (r: Self)
        ensures
            r == (AidIniBuilder {
                ecef_x_or_lat: pos.lat,
                ecef_y_or_lon: pos.lon,
                ecef_z_or_alt: pos.alt_cm,
                flags: self.flags | 0x21u32,
                ..self
            }),
    {
        let mut b = self;
        b.ecef_x_or_lat = pos.lat;
        b.ecef_y_or_lon = pos.lon;
        b.ecef_z_or_alt = pos.alt_cm;
        b.flags = b.flags | 0x21u32;
        b
    }

    /// Sets the date and time of day, and flags the time as given in UTC
    /// calendar form.
    pub fn set_time(self, tm: UtcTime) -> (r: Self)
        requires
            tm.is_valid(),
            tm.year >= 2000,
        ensures
            r == (AidIniBuilder {
                week_or_ym: tm.spec_year_month(),
                tow_or_hms: tm.spec_hms(),
                tow_ns: tm.nanosecond as i32,
                flags: self.flags | 0x402u32,
                ..self
            }),
    {
        let mut b = self;
        let years: u32 = (tm.year - 2000) as u32;
        let ym: u32 = years * 100 + (tm.month - 1);
        b.week_or_ym = (ym % 0x1_0000) as u16;
        b.tow_or_hms = tm.hour * 10000 + tm.minute * 100 + tm.second;
        b.tow_ns = tm.nanosecond as i32;
        b.flags = b.flags | 0x402u32;
        b
    }
}

impl MgaIniPosBuilder {
    /// Sets the message type and version of the geodetic form, and the position.
    pub fn set_position(self, pos: ScaledPosition) -> (r: Self)
        ensures
            r == (MgaIniPosBuilder {
                msg_type: 0x01u8,
                version: 0x00u8,
                lat: pos.lat,
                lon: pos.lon,
                alt: pos.alt_cm,
                ..self
            }),
    {
        let mut b = self;
        b.msg_type = 0x01;
        b.version = 0x00;
        b.lat = pos.lat;
        b.lon = pos.lon;
        b.alt = pos.alt_cm;
        b
    }

    /// Sets the position accuracy (standard deviation) in centimetres.
    pub fn set_accuracy(self, accuracy_cm: u32) -> (r: Self)
        ensures
            r == (MgaIniPosBuilder { pos_acc: accuracy_cm, ..self }),
    {
        let mut b = self;
        b.pos_acc = accuracy_cm;
        b
    }
}

impl MgaIniTimeUtcBuilder {
    /// Sets the message type and version of the UTC form and the time; the
    /// leap seconds become unknown and the source "none".
    pub fn set_time(self, tm: UtcTime) -> (r: Self)
        requires
            tm.is_valid(),
        ensures
            r == (MgaIniTimeUtcBuilder {
                msg_type: 0x10u8,
                version: 0x00u8,
                leap_secs: -128i8,
                source: 0x00u8,
                year: tm.year as u16,
                month: tm.month as u8,
                day: tm.day as u8,
                hour: tm.hour as u8,
                minute: tm.minute as u8,
                second: tm.second as u8,
                ns: tm.nanosecond,
                ..self
            }),
    {
        let mut b = self;
        b.msg_type = 0x10;
        b.version = 0x00;
        b.leap_secs = -128;
        b.source = 0x00;
        b.year = tm.year as u16;
        b.month = tm.month as u8;
        b.day = tm.day as u8;
        b.hour = tm.hour as u8;
        b.minute = tm.minute as u8;
        b.second = tm.second as u8;
        b.ns = tm.nanosecond;
        b
    }

    /// Overrides the time source and whether it is trusted.
    pub fn set_source(self, source: u8, trusted: bool) -> (r: Self)
        ensures
            r == (MgaIniTimeUtcBuilder {
                source: source,
                trusted_source: if trusted { 1u8 } else { 0u8 },
                ..self
            }),
    {
        let mut b = self;
        b.source = source;
        b.trusted_source = if trusted { 1 } else { 0 };
        b
    }

    /// Sets the time accuracy, in seconds and nanoseconds.
    pub fn set_accuracy(self, acc_s: u16, acc_ns: u32) -> (r: Self)
        ensures
            r == (MgaIniTimeUtcBuilder { t_acc_s: acc_s, t_acc_ns: acc_ns, ..self }),
    {
        let mut b = self;
        b.t_acc_s = acc_s;
        b.t_acc_ns = acc_ns;
        b
    }

    /// Sets the number of leap seconds, where it is known.
    pub fn set_leap_seconds(self, leap_secs: i8) -> (r: Self)
        ensures
            r == (MgaIniTimeUtcBuilder { leap_secs: leap_secs, ..self }),
    {
        let mut b = self;
        b.leap_secs = leap_secs;
        b
    }
}

} // verus!
