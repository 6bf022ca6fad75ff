use vstd::prelude::*;

use crate::ubx_packets::bytes_le::{u16_le_bytes, u16_to_le, u32_le_bytes, u32_to_le};
use crate::ubx_packets::frame::{build_frame, extend_vec, lemma_ubx_frame_layout, ubx_frame, vec_into_array};
use crate::error::MemWriterError;
use crate::ubx_packets::writer::{MemWriter, UbxPacketCreator};
use crate::ubx_packets::UbxPacketMeta;

verus! {

/// Aiding position, time, frequency and clock drift.
pub struct AidIni;

impl UbxPacketMeta for AidIni {
    const CLASS: u8 = 0x0B;
    const ID: u8 = 0x01;
    const MAX_PAYLOAD_LEN: u16 = 48;

    fn fixed_payload_len() -> (r: Option<u16>)
        ensures
            r == Some(48u16),
    {
        Some(48)
    }
}

/// Builder of [AidIni] packets: the raw values of the fields.
pub struct AidIniBuilder {
    pub ecef_x_or_lat: i32,
    pub ecef_y_or_lon: i32,
    pub ecef_z_or_alt: i32,
    pub pos_accuracy: u32,
    pub time_cfg: u16,
    pub week_or_ym: u16,
    pub tow_or_hms: u32,
    pub tow_ns: i32,
    pub tm_accuracy_ms: u32,
    pub tm_accuracy_ns: u32,
    pub clk_drift_or_freq: i32,
    pub clk_drift_or_freq_accuracy: u32,
    pub flags: u32,
}

impl AidIniBuilder {
    /// The payload these fields make.
    pub open spec fn payload(&self) -> Seq<u8> {
        u32_le_bytes(self.ecef_x_or_lat as u32)
            + u32_le_bytes(self.ecef_y_or_lon as u32)
            + u32_le_bytes(self.ecef_z_or_alt as u32)
            + u32_le_bytes(self.pos_accuracy)
            + u16_le_bytes(self.time_cfg)
            + u16_le_bytes(self.week_or_ym)
            + u32_le_bytes(self.tow_or_hms)
            + u32_le_bytes(self.tow_ns as u32)
            + u32_le_bytes(self.tm_accuracy_ms)
            + u32_le_bytes(self.tm_accuracy_ns)
            + u32_le_bytes(self.clk_drift_or_freq as u32)
            + u32_le_bytes(self.clk_drift_or_freq_accuracy)
            + u32_le_bytes(self.flags)
    }

    /// The whole packet frame.
    pub fn into_packet_bytes(self) -> (r: [u8; 56])
        ensures
            r@ == ubx_frame(AidIni::CLASS, AidIni::ID, self.payload()),
    {
        let mut payload: Vec<u8> = Vec::new();
        extend_vec(&mut payload, u32_to_le(self.ecef_x_or_lat as u32).as_slice());
        extend_vec(&mut payload, u32_to_le(self.ecef_y_or_lon as u32).as_slice());
        extend_vec(&mut payload, u32_to_le(self.ecef_z_or_alt as u32).as_slice());
        extend_vec(&mut payload, u32_to_le(self.pos_accuracy).as_slice());
        extend_vec(&mut payload, u16_to_le(self.time_cfg).as_slice());
        extend_vec(&mut payload, u16_to_le(self.week_or_ym).as_slice());
        extend_vec(&mut payload, u32_to_le(self.tow_or_hms).as_slice());
        extend_vec(&mut payload, u32_to_le(self.tow_ns as u32).as_slice());
        extend_vec(&mut payload, u32_to_le(self.tm_accuracy_ms).as_slice());
        extend_vec(&mut payload, u32_to_le(self.tm_accuracy_ns).as_slice());
        extend_vec(&mut payload, u32_to_le(self.clk_drift_or_freq as u32).as_slice());
        extend_vec(&mut payload, u32_to_le(self.clk_drift_or_freq_accuracy).as_slice());
        extend_vec(&mut payload, u32_to_le(self.flags).as_slice());
        proof {
            assert(payload@ =~= self.payload());
            lemma_ubx_frame_layout(AidIni::CLASS, AidIni::ID, payload@, Seq::<u8>::empty());
            assert(ubx_frame(AidIni::CLASS, AidIni::ID, payload@) + Seq::<u8>::empty() =~= ubx_frame(
                AidIni::CLASS,
                AidIni::ID,
                payload@,
            ));
        }
        let frame = build_frame(AidIni::CLASS, AidIni::ID, payload.as_slice());
        vec_into_array::<56>(&frame)
    }
}

impl UbxPacketCreator for AidIniBuilder {
    open spec fn packet_bytes(&self) -> Seq<u8> {
        ubx_frame(AidIni::CLASS, AidIni::ID, self.payload())
    }

    fn create_packet<T: MemWriter>(self, out: &mut T) -> (r: Result<(), MemWriterError<T::Error>>) {
        let bytes = self.into_packet_bytes();
        out.reserve_allocate(56)?;
        out.write(bytes.as_slice())
    }
}

impl Default for AidIniBuilder {
    fn default() -> (r: Self)
        ensures
            r.ecef_x_or_lat == 0,
            r.ecef_y_or_lon == 0,
            r.ecef_z_or_alt == 0,
            r.pos_accuracy == 0,
            r.time_cfg == 0,
            r.week_or_ym == 0,
            r.tow_or_hms == 0,
            r.tow_ns == 0,
            r.tm_accuracy_ms == 0,
            r.tm_accuracy_ns == 0,
            r.clk_drift_or_freq == 0,
            r.clk_drift_or_freq_accuracy == 0,
            r.flags == 0,
    {
        let r = AidIniBuilder { ecef_x_or_lat: 0, ecef_y_or_lon: 0, ecef_z_or_alt: 0, pos_accuracy: 0, time_cfg: 0, week_or_ym: 0, tow_or_hms: 0, tow_ns: 0, tm_accuracy_ms: 0, tm_accuracy_ns: 0, clk_drift_or_freq: 0, clk_drift_or_freq_accuracy: 0, flags: 0 };
        r
    }
}

/// The class, message id and longest payload of each packet type of this
/// module.
pub proof fn lemma_packet_ids()
    ensures
        AidIni::CLASS == 0x0B,
        AidIni::ID == 0x01,
        AidIni::MAX_PAYLOAD_LEN == 48,
{
}

} // verus!
