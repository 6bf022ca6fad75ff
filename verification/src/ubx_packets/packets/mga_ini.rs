use vstd::prelude::*;

use crate::ubx_packets::bytes_le::{u16_le_bytes, u16_to_le, u32_le_bytes, u32_to_le};
use crate::ubx_packets::frame::{build_frame, extend_vec, lemma_ubx_frame_layout, ubx_frame, vec_into_array};
use crate::error::MemWriterError;
use crate::ubx_packets::writer::{MemWriter, UbxPacketCreator};
use crate::ubx_packets::UbxPacketMeta;

verus! {

/// Initial position assistance.
pub struct MgaIniPos;

impl UbxPacketMeta for MgaIniPos {
    const CLASS: u8 = 0x13;
    const ID: u8 = 0x40;
    const MAX_PAYLOAD_LEN: u16 = 20;

    fn fixed_payload_len() -> (r: Option<u16>)
        ensures
            r == Some(20u16),
    {
        Some(20)
    }
}

/// Builder of [MgaIniPos] packets: the raw values of the fields.
pub struct MgaIniPosBuilder {
    pub msg_type: u8,
    pub version: u8,
    pub reserved0: [u8; 2],
    /// Latitude, in units of 1e-7 deg.
    pub lat: i32,
    /// Longitude, in units of 1e-7 deg.
    pub lon: i32,
    /// Altitude (cm).
    pub alt: i32,
    /// Position accuracy (cm).
    pub pos_acc: u32,
}

impl MgaIniPosBuilder {
    /// The payload these fields make.
    pub open spec fn payload(&self) -> Seq<u8> {
        seq![self.msg_type]
            + seq![self.version]
            + self.reserved0@
            + u32_le_bytes(self.lat as u32)
            + u32_le_bytes(self.lon as u32)
            + u32_le_bytes(self.alt as u32)
            + u32_le_bytes(self.pos_acc)
    }

    /// The whole packet frame.
    pub fn into_packet_bytes(self) -> (r: [u8; 28])
        ensures
            r@ == ubx_frame(MgaIniPos::CLASS, MgaIniPos::ID, self.payload()),
    {
        let mut payload: Vec<u8> = Vec::new();
        payload.push(self.msg_type);
        payload.push(self.version);
        extend_vec(&mut payload, self.reserved0.as_slice());
        extend_vec(&mut payload, u32_to_le(self.lat as u32).as_slice());
        extend_vec(&mut payload, u32_to_le(self.lon as u32).as_slice());
        extend_vec(&mut payload, u32_to_le(self.alt as u32).as_slice());
        extend_vec(&mut payload, u32_to_le(self.pos_acc).as_slice());
        proof {
            assert(payload@ =~= self.payload());
            lemma_ubx_frame_layout(MgaIniPos::CLASS, MgaIniPos::ID, payload@, Seq::<u8>::empty());
            assert(ubx_frame(MgaIniPos::CLASS, MgaIniPos::ID, payload@) + Seq::<u8>::empty() =~= ubx_frame(
                MgaIniPos::CLASS,
                MgaIniPos::ID,
                payload@,
            ));
        }
        let frame = build_frame(MgaIniPos::CLASS, MgaIniPos::ID, payload.as_slice());
        vec_into_array::<28>(&frame)
    }
}

impl UbxPacketCreator for MgaIniPosBuilder {
    open spec fn packet_bytes(&self) -> Seq<u8> {
        ubx_frame(MgaIniPos::CLASS, MgaIniPos::ID, self.payload())
    }

    fn create_packet<T: MemWriter>(self, out: &mut T) -> (r: Result<(), MemWriterError<T::Error>>) {
        let bytes = self.into_packet_bytes();
        out.reserve_allocate(28)?;
        out.write(bytes.as_slice())
    }
}

impl Default for MgaIniPosBuilder {
    fn default() -> (r: Self)
        ensures
            r.msg_type == 0,
            r.version == 0,
            r.reserved0@ == Seq::<u8>::new(2, |i: int| 0u8),
            r.lat == 0,
            r.lon == 0,
            r.alt == 0,
            r.pos_acc == 0,
    {
        let r = MgaIniPosBuilder { msg_type: 0, version: 0, reserved0: [0u8; 2], lat: 0, lon: 0, alt: 0, pos_acc: 0 };
        proof {
            assert(r.reserved0@ =~= Seq::<u8>::new(2, |i: int| 0u8));
        }
        r
    }
}

/// Initial time assistance in UTC.
pub struct MgaIniTimeUtc;

impl UbxPacketMeta for MgaIniTimeUtc {
    const CLASS: u8 = 0x13;
    const ID: u8 = 0x40;
    const MAX_PAYLOAD_LEN: u16 = 24;

    fn fixed_payload_len() -> (r: Option<u16>)
        ensures
            r == Some(24u16),
    {
        Some(24)
    }
}

/// Builder of [MgaIniTimeUtc] packets: the raw values of the fields.
pub struct MgaIniTimeUtcBuilder {
    pub msg_type: u8,
    pub version: u8,
    pub source: u8,
    pub leap_secs: i8,
    pub year: u16,
    pub month: u8,
    pub day: u8,
    pub hour: u8,
    pub minute: u8,
    pub second: u8,
    pub trusted_source: u8,
    pub ns: u32,
    pub t_acc_s: u16,
    pub reserved0: [u8; 2],
    pub t_acc_ns: u32,
}

impl MgaIniTimeUtcBuilder {
    /// The payload these fields make.
    pub open spec fn payload(&self) -> Seq<u8> {
        seq![self.msg_type]
            + seq![self.version]
            + seq![self.source]
            + seq![self.leap_secs as u8]
            + u16_le_bytes(self.year)
            + seq![self.month]
            + seq![self.day]
            + seq![self.hour]
            + seq![self.minute]
            + seq![self.second]
            + seq![self.trusted_source]
            + u32_le_bytes(self.ns)
            + u16_le_bytes(self.t_acc_s)
            + self.reserved0@
            + u32_le_bytes(self.t_acc_ns)
    }

    /// The whole packet frame.
    pub fn into_packet_bytes(self) -> (r: [u8; 32])
        ensures
            r@ == ubx_frame(MgaIniTimeUtc::CLASS, MgaIniTimeUtc::ID, self.payload()),
    {
        let mut payload: Vec<u8> = Vec::new();
        payload.push(self.msg_type);
        payload.push(self.version);
        payload.push(self.source);
        payload.push(self.leap_secs as u8);
        extend_vec(&mut payload, u16_to_le(self.year).as_slice());
        payload.push(self.month);
        payload.push(self.day);
        payload.push(self.hour);
        payload.push(self.minute);
        payload.push(self.second);
        payload.push(self.trusted_source);
        extend_vec(&mut payload, u32_to_le(self.ns).as_slice());
        extend_vec(&mut payload, u16_to_le(self.t_acc_s).as_slice());
        extend_vec(&mut payload, self.reserved0.as_slice());
        extend_vec(&mut payload, u32_to_le(self.t_acc_ns).as_slice());
        proof {
            assert(payload@ =~= self.payload());
            lemma_ubx_frame_layout(MgaIniTimeUtc::CLASS, MgaIniTimeUtc::ID, payload@, Seq::<u8>::empty());
            assert(ubx_frame(MgaIniTimeUtc::CLASS, MgaIniTimeUtc::ID, payload@) + Seq::<u8>::empty() =~= ubx_frame(
                MgaIniTimeUtc::CLASS,
                MgaIniTimeUtc::ID,
                payload@,
            ));
        }
        let frame = build_frame(MgaIniTimeUtc::CLASS, MgaIniTimeUtc::ID, payload.as_slice());
        vec_into_array::<32>(&frame)
    }
}

impl UbxPacketCreator for MgaIniTimeUtcBuilder {
    open spec fn packet_bytes(&self) -> Seq<u8> {
        ubx_frame(MgaIniTimeUtc::CLASS, MgaIniTimeUtc::ID, self.payload())
    }

    fn create_packet<T: MemWriter>(self, out: &mut T) -> (r: Result<(), MemWriterError<T::Error>>) {
        let bytes = self.into_packet_bytes();
        out.reserve_allocate(32)?;
        out.write(bytes.as_slice())
    }
}

impl Default for MgaIniTimeUtcBuilder {
    fn default() -> (r: Self)
        ensures
            r.msg_type == 0,
            r.version == 0,
            r.source == 0,
            r.leap_secs == 0,
            r.year == 0,
            r.month == 0,
            r.day == 0,
            r.hour == 0,
            r.minute == 0,
            r.second == 0,
            r.trusted_source == 0,
            r.ns == 0,
            r.t_acc_s == 0,
            r.reserved0@ == Seq::<u8>::new(2, |i: int| 0u8),
            r.t_acc_ns == 0,
    {
        let r = MgaIniTimeUtcBuilder { msg_type: 0, version: 0, source: 0, leap_secs: 0, year: 0, month: 0, day: 0, hour: 0, minute: 0, second: 0, trusted_source: 0, ns: 0, t_acc_s: 0, reserved0: [0u8; 2], t_acc_ns: 0 };
        proof {
            assert(r.reserved0@ =~= Seq::<u8>::new(2, |i: int| 0u8));
        }
        r
    }
}

/// The class, message id and longest payload of each packet type of this
/// module.
pub proof fn lemma_packet_ids()
    ensures
        MgaIniPos::CLASS == 0x13,
        MgaIniPos::ID == 0x40,
        MgaIniPos::MAX_PAYLOAD_LEN == 20,
        MgaIniTimeUtc::CLASS == 0x13,
        MgaIniTimeUtc::ID == 0x40,
        MgaIniTimeUtc::MAX_PAYLOAD_LEN == 24,
{
}

} // verus!
