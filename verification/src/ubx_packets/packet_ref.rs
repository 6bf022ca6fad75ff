use vstd::prelude::*;

use crate::ubx_packets::UbxPacketMeta;
use crate::ubx_packets::UbxUnknownPacketRef;
use crate::ubx_packets::packets::ack::{AckAck, AckAckRef, AckNak, AckNakRef};
use crate::ubx_packets::packets::cfg::{CfgNav5, CfgNav5Ref, CfgOdo, CfgOdoRef, CfgItfm, CfgItfmRef, CfgPrtUart, CfgPrtUartRef, CfgPrtSpi, CfgPrtSpiRef, CfgPrtI2c, CfgPrtI2cRef, CfgInf, CfgInfRef, CfgEsfAlg, CfgEsfAlgRef, CfgNavX5, CfgNavX5Ref};
use crate::ubx_packets::packets::cfg_ant::{CfgAnt, CfgAntRef};
use crate::ubx_packets::packets::cfg_esf_wt::{CfgEsfWt, CfgEsfWtRef};
use crate::ubx_packets::packets::cfg_gnss::{CfgGnss, CfgGnssRef};
use crate::ubx_packets::packets::cfg_smgr::{CfgSmgr, CfgSmgrRef};
use crate::ubx_packets::packets::cfg_tmode2::{CfgTmode2, CfgTmode2Ref};
use crate::ubx_packets::packets::cfg_tmode3::{CfgTmode3, CfgTmode3Ref};
use crate::ubx_packets::packets::cfg_tp5::{CfgTp5, CfgTp5Ref};
use crate::ubx_packets::packets::cfg_val::{CfgValGetResponse, CfgValGetResponseRef};
use crate::ubx_packets::packets::esf::{EsfAlg, EsfAlgRef, EsfIns, EsfInsRef};
use crate::ubx_packets::packets::esf_meas::{EsfMeas, EsfMeasRef};
use crate::ubx_packets::packets::esf_raw::{EsfRaw, EsfRawRef};
use crate::ubx_packets::packets::esf_status::{EsfStatus, EsfStatusRef};
use crate::ubx_packets::packets::hnr::{HnrAtt, HnrAttRef, HnrIns, HnrInsRef};
use crate::ubx_packets::packets::hnr_pvt::{HnrPvt, HnrPvtRef};
use crate::ubx_packets::packets::mga::{MgaGloEph, MgaGloEphRef, MgaGpsIono, MgaGpsIonoRef, MgaGpsEph, MgaGpsEphRef, MgaAck, MgaAckRef};
use crate::ubx_packets::packets::mga_bds_eph::{MgaBdsEph, MgaBdsEphRef};
use crate::ubx_packets::packets::mga_bds_utc::{MgaBdsUtc, MgaBdsUtcRef};
use crate::ubx_packets::packets::mga_gal_eph::{MgaGalEph, MgaGalEphRef};
use crate::ubx_packets::packets::mga_gal_time::{MgaGalTime, MgaGalTimeRef};
use crate::ubx_packets::packets::mga_gps_utc::{MgaGpsUtc, MgaGpsUtcRef};
use crate::ubx_packets::packets::mon::{MonGnss, MonGnssRef, MonHw, MonHwRef};
use crate::ubx_packets::packets::mon_comms::{MonComms, MonCommsRef};
use crate::ubx_packets::packets::mon_ver::{MonVer, MonVerRef};
use crate::ubx_packets::packets::nav::{NavPosLlh, NavPosLlhRef};
use crate::ubx_packets::packets::nav_pvt::{NavPvt, NavPvtRef};
use crate::ubx_packets::packets::sec::{SecUniqId, SecUniqIdRef, AlpSrv, AlpSrvRef};
use crate::ubx_packets::packets::cfg::{CfgNav5Builder, lemma_cfg_nav5_fields_roundtrip};
use crate::ubx_packets::packets::cfg::{CfgNavX5Builder, lemma_cfg_nav_x5_fields_roundtrip};
use crate::ubx_packets::packets::cfg::{CfgOdoBuilder, lemma_cfg_odo_fields_roundtrip};
use crate::ubx_packets::packets::cfg::{CfgItfmBuilder, lemma_cfg_itfm_fields_roundtrip};
use crate::ubx_packets::packets::cfg::{CfgPrtUartBuilder, lemma_cfg_prt_uart_fields_roundtrip};
use crate::ubx_packets::packets::cfg::{CfgPrtSpiBuilder, lemma_cfg_prt_spi_fields_roundtrip};
use crate::ubx_packets::packets::cfg::{CfgPrtI2cBuilder, lemma_cfg_prt_i2c_fields_roundtrip};
use crate::ubx_packets::packets::cfg::{CfgInfBuilder, lemma_cfg_inf_fields_roundtrip};
use crate::ubx_packets::packets::cfg::{CfgEsfAlgBuilder, lemma_cfg_esf_alg_fields_roundtrip};
use crate::ubx_packets::packets::cfg_ant::{CfgAntBuilder, lemma_cfg_ant_fields_roundtrip};
use crate::ubx_packets::packets::cfg_esf_wt::{CfgEsfWtBuilder, lemma_cfg_esf_wt_fields_roundtrip};
use crate::ubx_packets::packets::cfg_smgr::{CfgSmgrBuilder, lemma_cfg_smgr_fields_roundtrip};
use crate::ubx_packets::packets::cfg_tmode2::{CfgTmode2Builder, lemma_cfg_tmode2_fields_roundtrip};
use crate::ubx_packets::packets::cfg_tmode3::{CfgTmode3Builder, lemma_cfg_tmode3_fields_roundtrip};
use crate::ubx_packets::packets::cfg_tp5::{CfgTp5Builder, lemma_cfg_tp5_fields_roundtrip};
use crate::ubx_packets::packets::mga_bds_eph::{MgaBdsEphBuilder, lemma_mga_bds_eph_fields_roundtrip};
use crate::ubx_packets::packets::mga_gal_eph::{MgaGalEphBuilder, lemma_mga_gal_eph_fields_roundtrip};
use crate::ubx_packets::packets::mga_gal_time::{MgaGalTimeBuilder, lemma_mga_gal_time_fields_roundtrip};
use crate::ubx_packets::packets::mga_gps_utc::{MgaGpsUtcBuilder, lemma_mga_gps_utc_fields_roundtrip};

verus! {

/// The protocol versions this crate can parse.
#[derive(Debug, Copy, Clone, PartialEq, Eq, Structural)]
pub enum ProtoVersion {
    V14,
    V17,
    V23,
    V27,
    V31,
    V33,
}

/// NAV-PVT payload length: 84 bytes in protocol 14, 92 bytes later.
pub open spec fn nav_pvt_payload_len(version: ProtoVersion) -> usize {
    if version == ProtoVersion::V14 {
        84
    } else {
        92
    }
}

/// NAV-PVT payload length of a protocol version.
pub fn nav_pvt_len(version: ProtoVersion) -> (r: usize)
    ensures
        r == nav_pvt_payload_len(version),
{
    match version {
        ProtoVersion::V14 => 84,
        _ => 92,
    }
}

/// A parsed UBX packet: a view of its payload, typed by class and id.
/// Payloads that no known packet type accepts are kept as `Unknown`.
pub enum PacketRef<'a> {
    Unknown(UbxUnknownPacketRef<'a>),
    AckAck(AckAckRef<'a>),
    AckNak(AckNakRef<'a>),
    NavPosLlh(NavPosLlhRef<'a>),
    NavPvt(NavPvtRef<'a>),
    CfgNav5(CfgNav5Ref<'a>),
    CfgOdo(CfgOdoRef<'a>),
    CfgItfm(CfgItfmRef<'a>),
    CfgPrtUart(CfgPrtUartRef<'a>),
    CfgPrtSpi(CfgPrtSpiRef<'a>),
    CfgPrtI2c(CfgPrtI2cRef<'a>),
    CfgInf(CfgInfRef<'a>),
    CfgEsfAlg(CfgEsfAlgRef<'a>),
    MonGnss(MonGnssRef<'a>),
    MonHw(MonHwRef<'a>),
    MgaGloEph(MgaGloEphRef<'a>),
    MgaGpsIono(MgaGpsIonoRef<'a>),
    MgaGpsEph(MgaGpsEphRef<'a>),
    MgaAck(MgaAckRef<'a>),
    EsfAlg(EsfAlgRef<'a>),
    EsfIns(EsfInsRef<'a>),
    HnrAtt(HnrAttRef<'a>),
    HnrIns(HnrInsRef<'a>),
    SecUniqId(SecUniqIdRef<'a>),
    AlpSrv(AlpSrvRef<'a>),
    MonComms(MonCommsRef<'a>),
    CfgGnss(CfgGnssRef<'a>),
    EsfStatus(EsfStatusRef<'a>),
    EsfRaw(EsfRawRef<'a>),
    EsfMeas(EsfMeasRef<'a>),
    MonVer(MonVerRef<'a>),
    CfgNavX5(CfgNavX5Ref<'a>),
    CfgAnt(CfgAntRef<'a>),
    CfgEsfWt(CfgEsfWtRef<'a>),
    CfgSmgr(CfgSmgrRef<'a>),
    CfgTmode2(CfgTmode2Ref<'a>),
    CfgTmode3(CfgTmode3Ref<'a>),
    CfgTp5(CfgTp5Ref<'a>),
    HnrPvt(HnrPvtRef<'a>),
    MgaBdsEph(MgaBdsEphRef<'a>),
    MgaBdsUtc(MgaBdsUtcRef<'a>),
    MgaGalEph(MgaGalEphRef<'a>),
    MgaGalTime(MgaGalTimeRef<'a>),
    MgaGpsUtc(MgaGpsUtcRef<'a>),
    CfgValGetResponse(CfgValGetResponseRef<'a>),
}

impl<'a> PacketRef<'a> {
    /// The payload bytes of the packet.
    pub open spec fn payload(&self) -> Seq<u8> {
        match self {
            PacketRef::Unknown(p) => p.payload@,
            PacketRef::AckAck(p) => p.0@,
            PacketRef::AckNak(p) => p.0@,
            PacketRef::NavPosLlh(p) => p.0@,
            PacketRef::NavPvt(p) => p.0@,
            PacketRef::CfgNav5(p) => p.0@,
            PacketRef::CfgOdo(p) => p.0@,
            PacketRef::CfgItfm(p) => p.0@,
            PacketRef::CfgPrtUart(p) => p.0@,
            PacketRef::CfgPrtSpi(p) => p.0@,
            PacketRef::CfgPrtI2c(p) => p.0@,
            PacketRef::CfgInf(p) => p.0@,
            PacketRef::CfgEsfAlg(p) => p.0@,
            PacketRef::MonGnss(p) => p.0@,
            PacketRef::MonHw(p) => p.0@,
            PacketRef::MgaGloEph(p) => p.0@,
            PacketRef::MgaGpsIono(p) => p.0@,
            PacketRef::MgaGpsEph(p) => p.0@,
            PacketRef::MgaAck(p) => p.0@,
            PacketRef::EsfAlg(p) => p.0@,
            PacketRef::EsfIns(p) => p.0@,
            PacketRef::HnrAtt(p) => p.0@,
            PacketRef::HnrIns(p) => p.0@,
            PacketRef::SecUniqId(p) => p.0@,
            PacketRef::AlpSrv(p) => p.0@,
            PacketRef::MonComms(p) => p.0@,
            PacketRef::CfgGnss(p) => p.0@,
            PacketRef::EsfStatus(p) => p.0@,
            PacketRef::EsfRaw(p) => p.0@,
            PacketRef::EsfMeas(p) => p.0@,
            PacketRef::MonVer(p) => p.0@,
            PacketRef::CfgNavX5(p) => p.0@,
            PacketRef::CfgAnt(p) => p.0@,
            PacketRef::CfgEsfWt(p) => p.0@,
            PacketRef::CfgSmgr(p) => p.0@,
            PacketRef::CfgTmode2(p) => p.0@,
            PacketRef::CfgTmode3(p) => p.0@,
            PacketRef::CfgTp5(p) => p.0@,
            PacketRef::HnrPvt(p) => p.0@,
            PacketRef::MgaBdsEph(p) => p.0@,
            PacketRef::MgaBdsUtc(p) => p.0@,
            PacketRef::MgaGalEph(p) => p.0@,
            PacketRef::MgaGalTime(p) => p.0@,
            PacketRef::MgaGpsUtc(p) => p.0@,
            PacketRef::CfgValGetResponse(p) => p.0@,
        }
    }
}

/// The packet that `match_packet` makes of a class, id and payload.
pub open spec fn spec_match_packet<'a>(version: ProtoVersion, class_id: u8, msg_id: u8, payload: &'a [u8]) -> PacketRef<'a> {
    if class_id == AckAck::CLASS && msg_id == AckAck::ID && AckAckRef::spec_validate(payload@) is Ok {
        PacketRef::AckAck(AckAckRef(payload))
    } else if class_id == AckNak::CLASS && msg_id == AckNak::ID && AckNakRef::spec_validate(payload@) is Ok {
        PacketRef::AckNak(AckNakRef(payload))
    } else if class_id == NavPosLlh::CLASS && msg_id == NavPosLlh::ID && NavPosLlhRef::spec_validate(payload@) is Ok {
        PacketRef::NavPosLlh(NavPosLlhRef(payload))
    } else if class_id == NavPvt::CLASS && msg_id == NavPvt::ID && NavPvtRef::spec_validate(payload@, nav_pvt_payload_len(version)) is Ok {
        PacketRef::NavPvt(NavPvtRef(payload))
    } else if class_id == CfgNav5::CLASS && msg_id == CfgNav5::ID && CfgNav5Ref::spec_validate(payload@) is Ok {
        PacketRef::CfgNav5(CfgNav5Ref(payload))
    } else if class_id == CfgOdo::CLASS && msg_id == CfgOdo::ID && CfgOdoRef::spec_validate(payload@) is Ok {
        PacketRef::CfgOdo(CfgOdoRef(payload))
    } else if class_id == CfgItfm::CLASS && msg_id == CfgItfm::ID && CfgItfmRef::spec_validate(payload@) is Ok {
        PacketRef::CfgItfm(CfgItfmRef(payload))
    } else if class_id == CfgPrtUart::CLASS && msg_id == CfgPrtUart::ID && CfgPrtUartRef::spec_validate(payload@) is Ok {
        PacketRef::CfgPrtUart(CfgPrtUartRef(payload))
    } else if class_id == CfgPrtSpi::CLASS && msg_id == CfgPrtSpi::ID && CfgPrtSpiRef::spec_validate(payload@) is Ok {
        PacketRef::CfgPrtSpi(CfgPrtSpiRef(payload))
    } else if class_id == CfgPrtI2c::CLASS && msg_id == CfgPrtI2c::ID && CfgPrtI2cRef::spec_validate(payload@) is Ok {
        PacketRef::CfgPrtI2c(CfgPrtI2cRef(payload))
    } else if class_id == CfgInf::CLASS && msg_id == CfgInf::ID && CfgInfRef::spec_validate(payload@) is Ok {
        PacketRef::CfgInf(CfgInfRef(payload))
    } else if class_id == CfgEsfAlg::CLASS && msg_id == CfgEsfAlg::ID && CfgEsfAlgRef::spec_validate(payload@) is Ok {
        PacketRef::CfgEsfAlg(CfgEsfAlgRef(payload))
    } else if class_id == MonGnss::CLASS && msg_id == MonGnss::ID && MonGnssRef::spec_validate(payload@) is Ok {
        PacketRef::MonGnss(MonGnssRef(payload))
    } else if class_id == MonHw::CLASS && msg_id == MonHw::ID && MonHwRef::spec_validate(payload@) is Ok {
        PacketRef::MonHw(MonHwRef(payload))
    } else if class_id == MgaGloEph::CLASS && msg_id == MgaGloEph::ID && MgaGloEphRef::spec_validate(payload@) is Ok {
        PacketRef::MgaGloEph(MgaGloEphRef(payload))
    } else if class_id == MgaGpsIono::CLASS && msg_id == MgaGpsIono::ID && MgaGpsIonoRef::spec_validate(payload@) is Ok {
        PacketRef::MgaGpsIono(MgaGpsIonoRef(payload))
    } else if class_id == MgaGpsEph::CLASS && msg_id == MgaGpsEph::ID && MgaGpsEphRef::spec_validate(payload@) is Ok {
        PacketRef::MgaGpsEph(MgaGpsEphRef(payload))
    } else if class_id == MgaAck::CLASS && msg_id == MgaAck::ID && MgaAckRef::spec_validate(payload@) is Ok {
        PacketRef::MgaAck(MgaAckRef(payload))
    } else if class_id == EsfAlg::CLASS && msg_id == EsfAlg::ID && EsfAlgRef::spec_validate(payload@) is Ok {
        PacketRef::EsfAlg(EsfAlgRef(payload))
    } else if class_id == EsfIns::CLASS && msg_id == EsfIns::ID && EsfInsRef::spec_validate(payload@) is Ok {
        PacketRef::EsfIns(EsfInsRef(payload))
    } else if class_id == HnrAtt::CLASS && msg_id == HnrAtt::ID && HnrAttRef::spec_validate(payload@) is Ok {
        PacketRef::HnrAtt(HnrAttRef(payload))
    } else if class_id == HnrIns::CLASS && msg_id == HnrIns::ID && HnrInsRef::spec_validate(payload@) is Ok {
        PacketRef::HnrIns(HnrInsRef(payload))
    } else if class_id == SecUniqId::CLASS && msg_id == SecUniqId::ID && SecUniqIdRef::spec_validate(payload@) is Ok {
        PacketRef::SecUniqId(SecUniqIdRef(payload))
    } else if class_id == AlpSrv::CLASS && msg_id == AlpSrv::ID && AlpSrvRef::spec_validate(payload@) is Ok {
        PacketRef::AlpSrv(AlpSrvRef(payload))
    } else if class_id == MonComms::CLASS && msg_id == MonComms::ID && MonCommsRef::spec_validate(payload@) is Ok {
        PacketRef::MonComms(MonCommsRef(payload))
    } else if class_id == CfgGnss::CLASS && msg_id == CfgGnss::ID && CfgGnssRef::spec_validate(payload@) is Ok {
        PacketRef::CfgGnss(CfgGnssRef(payload))
    } else if class_id == EsfStatus::CLASS && msg_id == EsfStatus::ID && EsfStatusRef::spec_validate(payload@) is Ok {
        PacketRef::EsfStatus(EsfStatusRef(payload))
    } else if class_id == EsfRaw::CLASS && msg_id == EsfRaw::ID && EsfRawRef::spec_validate(payload@) is Ok {
        PacketRef::EsfRaw(EsfRawRef(payload))
    } else if class_id == EsfMeas::CLASS && msg_id == EsfMeas::ID && EsfMeasRef::spec_validate(payload@) is Ok {
        PacketRef::EsfMeas(EsfMeasRef(payload))
    } else if class_id == MonVer::CLASS && msg_id == MonVer::ID && MonVerRef::spec_validate(payload@) is Ok {
        PacketRef::MonVer(MonVerRef(payload))
    } else if class_id == CfgNavX5::CLASS && msg_id == CfgNavX5::ID && CfgNavX5Ref::spec_validate(payload@) is Ok {
        PacketRef::CfgNavX5(CfgNavX5Ref(payload))
    } else if class_id == CfgAnt::CLASS && msg_id == CfgAnt::ID && CfgAntRef::spec_validate(payload@) is Ok {
        PacketRef::CfgAnt(CfgAntRef(payload))
    } else if class_id == CfgEsfWt::CLASS && msg_id == CfgEsfWt::ID && CfgEsfWtRef::spec_validate(payload@) is Ok {
        PacketRef::CfgEsfWt(CfgEsfWtRef(payload))
    } else if class_id == CfgSmgr::CLASS && msg_id == CfgSmgr::ID && CfgSmgrRef::spec_validate(payload@) is Ok {
        PacketRef::CfgSmgr(CfgSmgrRef(payload))
    } else if class_id == CfgTmode2::CLASS && msg_id == CfgTmode2::ID && CfgTmode2Ref::spec_validate(payload@) is Ok {
        PacketRef::CfgTmode2(CfgTmode2Ref(payload))
    } else if class_id == CfgTmode3::CLASS && msg_id == CfgTmode3::ID && CfgTmode3Ref::spec_validate(payload@) is Ok {
        PacketRef::CfgTmode3(CfgTmode3Ref(payload))
    } else if class_id == CfgTp5::CLASS && msg_id == CfgTp5::ID && CfgTp5Ref::spec_validate(payload@) is Ok {
        PacketRef::CfgTp5(CfgTp5Ref(payload))
    } else if class_id == HnrPvt::CLASS && msg_id == HnrPvt::ID && HnrPvtRef::spec_validate(payload@) is Ok {
        PacketRef::HnrPvt(HnrPvtRef(payload))
    } else if class_id == MgaBdsEph::CLASS && msg_id == MgaBdsEph::ID && MgaBdsEphRef::spec_validate(payload@) is Ok {
        PacketRef::MgaBdsEph(MgaBdsEphRef(payload))
    } else if class_id == MgaBdsUtc::CLASS && msg_id == MgaBdsUtc::ID && MgaBdsUtcRef::spec_validate(payload@) is Ok {
        PacketRef::MgaBdsUtc(MgaBdsUtcRef(payload))
    } else if class_id == MgaGalEph::CLASS && msg_id == MgaGalEph::ID && MgaGalEphRef::spec_validate(payload@) is Ok {
        PacketRef::MgaGalEph(MgaGalEphRef(payload))
    } else if class_id == MgaGalTime::CLASS && msg_id == MgaGalTime::ID && MgaGalTimeRef::spec_validate(payload@) is Ok {
        PacketRef::MgaGalTime(MgaGalTimeRef(payload))
    } else if class_id == MgaGpsUtc::CLASS && msg_id == MgaGpsUtc::ID && MgaGpsUtcRef::spec_validate(payload@) is Ok {
        PacketRef::MgaGpsUtc(MgaGpsUtcRef(payload))
    } else if class_id == CfgValGetResponse::CLASS && msg_id == CfgValGetResponse::ID && CfgValGetResponseRef::spec_validate(payload@) is Ok {
        PacketRef::CfgValGetResponse(CfgValGetResponseRef(payload))
    } else {
        PacketRef::Unknown(UbxUnknownPacketRef { payload: payload, class: class_id, msg_id: msg_id })
    }
}

/// Matches a class id, message id and payload to a specific packet type of
/// the given protocol version; a payload that fails validation is kept as
/// an unknown packet.
pub fn match_packet<'a>(version: ProtoVersion, class_id: u8, msg_id: u8, payload: &'a [u8]) -> (r: PacketRef<'a>)
    ensures
        r == spec_match_packet(version, class_id, msg_id, payload),
        r.payload() == payload@,
{
    if class_id == AckAck::CLASS && msg_id == AckAck::ID && AckAckRef::validate(payload).is_ok() {
        PacketRef::AckAck(AckAckRef(payload))
    } else if class_id == AckNak::CLASS && msg_id == AckNak::ID && AckNakRef::validate(payload).is_ok() {
        PacketRef::AckNak(AckNakRef(payload))
    } else if class_id == NavPosLlh::CLASS && msg_id == NavPosLlh::ID && NavPosLlhRef::validate(payload).is_ok() {
        PacketRef::NavPosLlh(NavPosLlhRef(payload))
    } else if class_id == NavPvt::CLASS && msg_id == NavPvt::ID && NavPvtRef::validate(payload, nav_pvt_len(version)).is_ok() {
        PacketRef::NavPvt(NavPvtRef(payload))
    } else if class_id == CfgNav5::CLASS && msg_id == CfgNav5::ID && CfgNav5Ref::validate(payload).is_ok() {
        PacketRef::CfgNav5(CfgNav5Ref(payload))
    } else if class_id == CfgOdo::CLASS && msg_id == CfgOdo::ID && CfgOdoRef::validate(payload).is_ok() {
        PacketRef::CfgOdo(CfgOdoRef(payload))
    } else if class_id == CfgItfm::CLASS && msg_id == CfgItfm::ID && CfgItfmRef::validate(payload).is_ok() {
        PacketRef::CfgItfm(CfgItfmRef(payload))
    } else if class_id == CfgPrtUart::CLASS && msg_id == CfgPrtUart::ID && CfgPrtUartRef::validate(payload).is_ok() {
        PacketRef::CfgPrtUart(CfgPrtUartRef(payload))
    } else if class_id == CfgPrtSpi::CLASS && msg_id == CfgPrtSpi::ID && CfgPrtSpiRef::validate(payload).is_ok() {
        PacketRef::CfgPrtSpi(CfgPrtSpiRef(payload))
    } else if class_id == CfgPrtI2c::CLASS && msg_id == CfgPrtI2c::ID && CfgPrtI2cRef::validate(payload).is_ok() {
        PacketRef::CfgPrtI2c(CfgPrtI2cRef(payload))
    } else if class_id == CfgInf::CLASS && msg_id == CfgInf::ID && CfgInfRef::validate(payload).is_ok() {
        PacketRef::CfgInf(CfgInfRef(payload))
    } else if class_id == CfgEsfAlg::CLASS && msg_id == CfgEsfAlg::ID && CfgEsfAlgRef::validate(payload).is_ok() {
        PacketRef::CfgEsfAlg(CfgEsfAlgRef(payload))
    } else if class_id == MonGnss::CLASS && msg_id == MonGnss::ID && MonGnssRef::validate(payload).is_ok() {
        PacketRef::MonGnss(MonGnssRef(payload))
    } else if class_id == MonHw::CLASS && msg_id == MonHw::ID && MonHwRef::validate(payload).is_ok() {
        PacketRef::MonHw(MonHwRef(payload))
    } else if class_id == MgaGloEph::CLASS && msg_id == MgaGloEph::ID && MgaGloEphRef::validate(payload).is_ok() {
        PacketRef::MgaGloEph(MgaGloEphRef(payload))
    } else if class_id == MgaGpsIono::CLASS && msg_id == MgaGpsIono::ID && MgaGpsIonoRef::validate(payload).is_ok() {
        PacketRef::MgaGpsIono(MgaGpsIonoRef(payload))
    } else if class_id == MgaGpsEph::CLASS && msg_id == MgaGpsEph::ID && MgaGpsEphRef::validate(payload).is_ok() {
        PacketRef::MgaGpsEph(MgaGpsEphRef(payload))
    } else if class_id == MgaAck::CLASS && msg_id == MgaAck::ID && MgaAckRef::validate(payload).is_ok() {
        PacketRef::MgaAck(MgaAckRef(payload))
    } else if class_id == EsfAlg::CLASS && msg_id == EsfAlg::ID && EsfAlgRef::validate(payload).is_ok() {
        PacketRef::EsfAlg(EsfAlgRef(payload))
    } else if class_id == EsfIns::CLASS && msg_id == EsfIns::ID && EsfInsRef::validate(payload).is_ok() {
        PacketRef::EsfIns(EsfInsRef(payload))
    } else if class_id == HnrAtt::CLASS && msg_id == HnrAtt::ID && HnrAttRef::validate(payload).is_ok() {
        PacketRef::HnrAtt(HnrAttRef(payload))
    } else if class_id == HnrIns::CLASS && msg_id == HnrIns::ID && HnrInsRef::validate(payload).is_ok() {
        PacketRef::HnrIns(HnrInsRef(payload))
    } else if class_id == SecUniqId::CLASS && msg_id == SecUniqId::ID && SecUniqIdRef::validate(payload).is_ok() {
        PacketRef::SecUniqId(SecUniqIdRef(payload))
    } else if class_id == AlpSrv::CLASS && msg_id == AlpSrv::ID && AlpSrvRef::validate(payload).is_ok() {
        PacketRef::AlpSrv(AlpSrvRef(payload))
    } else if class_id == MonComms::CLASS && msg_id == MonComms::ID && MonCommsRef::validate(payload).is_ok() {
        PacketRef::MonComms(MonCommsRef(payload))
    } else if class_id == CfgGnss::CLASS && msg_id == CfgGnss::ID && CfgGnssRef::validate(payload).is_ok() {
        PacketRef::CfgGnss(CfgGnssRef(payload))
    } else if class_id == EsfStatus::CLASS && msg_id == EsfStatus::ID && EsfStatusRef::validate(payload).is_ok() {
        PacketRef::EsfStatus(EsfStatusRef(payload))
    } else if class_id == EsfRaw::CLASS && msg_id == EsfRaw::ID && EsfRawRef::validate(payload).is_ok() {
        PacketRef::EsfRaw(EsfRawRef(payload))
    } else if class_id == EsfMeas::CLASS && msg_id == EsfMeas::ID && EsfMeasRef::validate(payload).is_ok() {
        PacketRef::EsfMeas(EsfMeasRef(payload))
    } else if class_id == MonVer::CLASS && msg_id == MonVer::ID && MonVerRef::validate(payload).is_ok() {
        PacketRef::MonVer(MonVerRef(payload))
    } else if class_id == CfgNavX5::CLASS && msg_id == CfgNavX5::ID && CfgNavX5Ref::validate(payload).is_ok() {
        PacketRef::CfgNavX5(CfgNavX5Ref(payload))
    } else if class_id == CfgAnt::CLASS && msg_id == CfgAnt::ID && CfgAntRef::validate(payload).is_ok() {
        PacketRef::CfgAnt(CfgAntRef(payload))
    } else if class_id == CfgEsfWt::CLASS && msg_id == CfgEsfWt::ID && CfgEsfWtRef::validate(payload).is_ok() {
        PacketRef::CfgEsfWt(CfgEsfWtRef(payload))
    } else if class_id == CfgSmgr::CLASS && msg_id == CfgSmgr::ID && CfgSmgrRef::validate(payload).is_ok() {
        PacketRef::CfgSmgr(CfgSmgrRef(payload))
    } else if class_id == CfgTmode2::CLASS && msg_id == CfgTmode2::ID && CfgTmode2Ref::validate(payload).is_ok() {
        PacketRef::CfgTmode2(CfgTmode2Ref(payload))
    } else if class_id == CfgTmode3::CLASS && msg_id == CfgTmode3::ID && CfgTmode3Ref::validate(payload).is_ok() {
        PacketRef::CfgTmode3(CfgTmode3Ref(payload))
    } else if class_id == CfgTp5::CLASS && msg_id == CfgTp5::ID && CfgTp5Ref::validate(payload).is_ok() {
        PacketRef::CfgTp5(CfgTp5Ref(payload))
    } else if class_id == HnrPvt::CLASS && msg_id == HnrPvt::ID && HnrPvtRef::validate(payload).is_ok() {
        PacketRef::HnrPvt(HnrPvtRef(payload))
    } else if class_id == MgaBdsEph::CLASS && msg_id == MgaBdsEph::ID && MgaBdsEphRef::validate(payload).is_ok() {
        PacketRef::MgaBdsEph(MgaBdsEphRef(payload))
    } else if class_id == MgaBdsUtc::CLASS && msg_id == MgaBdsUtc::ID && MgaBdsUtcRef::validate(payload).is_ok() {
        PacketRef::MgaBdsUtc(MgaBdsUtcRef(payload))
    } else if class_id == MgaGalEph::CLASS && msg_id == MgaGalEph::ID && MgaGalEphRef::validate(payload).is_ok() {
        PacketRef::MgaGalEph(MgaGalEphRef(payload))
    } else if class_id == MgaGalTime::CLASS && msg_id == MgaGalTime::ID && MgaGalTimeRef::validate(payload).is_ok() {
        PacketRef::MgaGalTime(MgaGalTimeRef(payload))
    } else if class_id == MgaGpsUtc::CLASS && msg_id == MgaGpsUtc::ID && MgaGpsUtcRef::validate(payload).is_ok() {
        PacketRef::MgaGpsUtc(MgaGpsUtcRef(payload))
    } else if class_id == CfgValGetResponse::CLASS && msg_id == CfgValGetResponse::ID && CfgValGetResponseRef::validate(payload).is_ok() {
        PacketRef::CfgValGetResponse(CfgValGetResponseRef(payload))
    } else {
        PacketRef::Unknown(UbxUnknownPacketRef { payload, class: class_id, msg_id })
    }
}

/// The class and message ids of the packet types that are matched.
proof fn lemma_matched_packet_ids()
    ensures
        AckAck::CLASS == 0x05,
        AckAck::ID == 0x01,
        AckNak::CLASS == 0x05,
        AckNak::ID == 0x00,
        NavPosLlh::CLASS == 0x01,
        NavPosLlh::ID == 0x02,
        NavPvt::CLASS == 0x01,
        NavPvt::ID == 0x07,
        CfgNav5::CLASS == 0x06,
        CfgNav5::ID == 0x24,
        CfgOdo::CLASS == 0x06,
        CfgOdo::ID == 0x1E,
        CfgItfm::CLASS == 0x06,
        CfgItfm::ID == 0x39,
        CfgPrtUart::CLASS == 0x06,
        CfgPrtUart::ID == 0x00,
        CfgPrtSpi::CLASS == 0x06,
        CfgPrtSpi::ID == 0x00,
        CfgPrtI2c::CLASS == 0x06,
        CfgPrtI2c::ID == 0x00,
        CfgInf::CLASS == 0x06,
        CfgInf::ID == 0x02,
        CfgEsfAlg::CLASS == 0x06,
        CfgEsfAlg::ID == 0x56,
        MonGnss::CLASS == 0x0a,
        MonGnss::ID == 0x28,
        MonHw::CLASS == 0x0a,
        MonHw::ID == 0x09,
        MgaGloEph::CLASS == 0x13,
        MgaGloEph::ID == 0x06,
        MgaGpsIono::CLASS == 0x13,
        MgaGpsIono::ID == 0x00,
        MgaGpsEph::CLASS == 0x13,
        MgaGpsEph::ID == 0x00,
        MgaAck::CLASS == 0x13,
        MgaAck::ID == 0x60,
        EsfAlg::CLASS == 0x10,
        EsfAlg::ID == 0x14,
        EsfIns::CLASS == 0x10,
        EsfIns::ID == 0x15,
        HnrAtt::CLASS == 0x28,
        HnrAtt::ID == 0x01,
        HnrIns::CLASS == 0x28,
        HnrIns::ID == 0x02,
        SecUniqId::CLASS == 0x27,
        SecUniqId::ID == 0x03,
        AlpSrv::CLASS == 0x0B,
        AlpSrv::ID == 0x32,
        MonComms::CLASS == 0x0a,
        MonComms::ID == 0x36,
        CfgGnss::CLASS == 0x06,
        CfgGnss::ID == 0x3e,
        EsfStatus::CLASS == 0x10,
        EsfStatus::ID == 0x10,
        EsfRaw::CLASS == 0x10,
        EsfRaw::ID == 0x03,
        EsfMeas::CLASS == 0x10,
        EsfMeas::ID == 0x02,
        MonVer::CLASS == 0x0a,
        MonVer::ID == 0x04,
        CfgNavX5::CLASS == 0x06,
        CfgNavX5::ID == 0x23,
        CfgAnt::CLASS == 0x06,
        CfgAnt::ID == 0x13,
        CfgEsfWt::CLASS == 0x06,
        CfgEsfWt::ID == 0x82,
        CfgSmgr::CLASS == 0x06,
        CfgSmgr::ID == 0x62,
        CfgTmode2::CLASS == 0x06,
        CfgTmode2::ID == 0x3d,
        CfgTmode3::CLASS == 0x06,
        CfgTmode3::ID == 0x71,
        CfgTp5::CLASS == 0x06,
        CfgTp5::ID == 0x31,
        HnrPvt::CLASS == 0x28,
        HnrPvt::ID == 0x00,
        MgaBdsEph::CLASS == 0x13,
        MgaBdsEph::ID == 0x03,
        MgaBdsUtc::CLASS == 0x13,
        MgaBdsUtc::ID == 0x03,
        MgaGalEph::CLASS == 0x13,
        MgaGalEph::ID == 0x02,
        MgaGalTime::CLASS == 0x13,
        MgaGalTime::ID == 0x02,
        MgaGpsUtc::CLASS == 0x13,
        MgaGpsUtc::ID == 0x00,
        CfgValGetResponse::CLASS == 0x06,
        CfgValGetResponse::ID == 0x8b,
{
    crate::ubx_packets::packets::ack::lemma_packet_ids();
    crate::ubx_packets::packets::cfg::lemma_packet_ids();
    crate::ubx_packets::packets::cfg_ant::lemma_packet_ids();
    crate::ubx_packets::packets::cfg_esf_wt::lemma_packet_ids();
    crate::ubx_packets::packets::cfg_gnss::lemma_packet_ids();
    crate::ubx_packets::packets::cfg_smgr::lemma_packet_ids();
    crate::ubx_packets::packets::cfg_tmode2::lemma_packet_ids();
    crate::ubx_packets::packets::cfg_tmode3::lemma_packet_ids();
    crate::ubx_packets::packets::cfg_tp5::lemma_packet_ids();
    crate::ubx_packets::packets::cfg_val::lemma_packet_ids();
    crate::ubx_packets::packets::esf::lemma_packet_ids();
    crate::ubx_packets::packets::esf_meas::lemma_packet_ids();
    crate::ubx_packets::packets::esf_raw::lemma_packet_ids();
    crate::ubx_packets::packets::esf_status::lemma_packet_ids();
    crate::ubx_packets::packets::hnr::lemma_packet_ids();
    crate::ubx_packets::packets::hnr_pvt::lemma_packet_ids();
    crate::ubx_packets::packets::mga::lemma_packet_ids();
    crate::ubx_packets::packets::mga_bds_eph::lemma_packet_ids();
    crate::ubx_packets::packets::mga_bds_utc::lemma_packet_ids();
    crate::ubx_packets::packets::mga_gal_eph::lemma_packet_ids();
    crate::ubx_packets::packets::mga_gal_time::lemma_packet_ids();
    crate::ubx_packets::packets::mga_gps_utc::lemma_packet_ids();
    crate::ubx_packets::packets::mon::lemma_packet_ids();
    crate::ubx_packets::packets::mon_comms::lemma_packet_ids();
    crate::ubx_packets::packets::mon_ver::lemma_packet_ids();
    crate::ubx_packets::packets::nav::lemma_packet_ids();
    crate::ubx_packets::packets::nav_pvt::lemma_packet_ids();
    crate::ubx_packets::packets::sec::lemma_packet_ids();
}

/// Whatever packet type a frame is matched as, the frame's class and
/// message id are those of that type (as the u-blox protocol numbers them);
/// the matched packet holds the frame's payload.
pub proof fn lemma_matched_variant_ids<'a>(version: ProtoVersion, class_id: u8, msg_id: u8, s: &'a [u8])
    ensures
        spec_match_packet(version, class_id, msg_id, s) is AckAck ==> class_id == 0x05 && msg_id == 0x01,
        spec_match_packet(version, class_id, msg_id, s) is AckNak ==> class_id == 0x05 && msg_id == 0x00,
        spec_match_packet(version, class_id, msg_id, s) is NavPosLlh ==> class_id == 0x01 && msg_id == 0x02,
        spec_match_packet(version, class_id, msg_id, s) is NavPvt ==> class_id == 0x01 && msg_id == 0x07,
        spec_match_packet(version, class_id, msg_id, s) is CfgNav5 ==> class_id == 0x06 && msg_id == 0x24,
        spec_match_packet(version, class_id, msg_id, s) is CfgOdo ==> class_id == 0x06 && msg_id == 0x1E,
        spec_match_packet(version, class_id, msg_id, s) is CfgItfm ==> class_id == 0x06 && msg_id == 0x39,
        spec_match_packet(version, class_id, msg_id, s) is CfgPrtUart ==> class_id == 0x06 && msg_id == 0x00,
        spec_match_packet(version, class_id, msg_id, s) is CfgPrtSpi ==> class_id == 0x06 && msg_id == 0x00,
        spec_match_packet(version, class_id, msg_id, s) is CfgPrtI2c ==> class_id == 0x06 && msg_id == 0x00,
        spec_match_packet(version, class_id, msg_id, s) is CfgInf ==> class_id == 0x06 && msg_id == 0x02,
        spec_match_packet(version, class_id, msg_id, s) is CfgEsfAlg ==> class_id == 0x06 && msg_id == 0x56,
        spec_match_packet(version, class_id, msg_id, s) is MonGnss ==> class_id == 0x0a && msg_id == 0x28,
        spec_match_packet(version, class_id, msg_id, s) is MonHw ==> class_id == 0x0a && msg_id == 0x09,
        spec_match_packet(version, class_id, msg_id, s) is MgaGloEph ==> class_id == 0x13 && msg_id == 0x06,
        spec_match_packet(version, class_id, msg_id, s) is MgaGpsIono ==> class_id == 0x13 && msg_id == 0x00,
        spec_match_packet(version, class_id, msg_id, s) is MgaGpsEph ==> class_id == 0x13 && msg_id == 0x00,
        spec_match_packet(version, class_id, msg_id, s) is MgaAck ==> class_id == 0x13 && msg_id == 0x60,
        spec_match_packet(version, class_id, msg_id, s) is EsfAlg ==> class_id == 0x10 && msg_id == 0x14,
        spec_match_packet(version, class_id, msg_id, s) is EsfIns ==> class_id == 0x10 && msg_id == 0x15,
        spec_match_packet(version, class_id, msg_id, s) is HnrAtt ==> class_id == 0x28 && msg_id == 0x01,
        spec_match_packet(version, class_id, msg_id, s) is HnrIns ==> class_id == 0x28 && msg_id == 0x02,
        spec_match_packet(version, class_id, msg_id, s) is SecUniqId ==> class_id == 0x27 && msg_id == 0x03,
        spec_match_packet(version, class_id, msg_id, s) is AlpSrv ==> class_id == 0x0B && msg_id == 0x32,
        spec_match_packet(version, class_id, msg_id, s) is MonComms ==> class_id == 0x0a && msg_id == 0x36,
        spec_match_packet(version, class_id, msg_id, s) is CfgGnss ==> class_id == 0x06 && msg_id == 0x3e,
        spec_match_packet(version, class_id, msg_id, s) is EsfStatus ==> class_id == 0x10 && msg_id == 0x10,
        spec_match_packet(version, class_id, msg_id, s) is EsfRaw ==> class_id == 0x10 && msg_id == 0x03,
        spec_match_packet(version, class_id, msg_id, s) is EsfMeas ==> class_id == 0x10 && msg_id == 0x02,
        spec_match_packet(version, class_id, msg_id, s) is MonVer ==> class_id == 0x0a && msg_id == 0x04,
        spec_match_packet(version, class_id, msg_id, s) is CfgNavX5 ==> class_id == 0x06 && msg_id == 0x23,
        spec_match_packet(version, class_id, msg_id, s) is CfgAnt ==> class_id == 0x06 && msg_id == 0x13,
        spec_match_packet(version, class_id, msg_id, s) is CfgEsfWt ==> class_id == 0x06 && msg_id == 0x82,
        spec_match_packet(version, class_id, msg_id, s) is CfgSmgr ==> class_id == 0x06 && msg_id == 0x62,
        spec_match_packet(version, class_id, msg_id, s) is CfgTmode2 ==> class_id == 0x06 && msg_id == 0x3d,
        spec_match_packet(version, class_id, msg_id, s) is CfgTmode3 ==> class_id == 0x06 && msg_id == 0x71,
        spec_match_packet(version, class_id, msg_id, s) is CfgTp5 ==> class_id == 0x06 && msg_id == 0x31,
        spec_match_packet(version, class_id, msg_id, s) is HnrPvt ==> class_id == 0x28 && msg_id == 0x00,
        spec_match_packet(version, class_id, msg_id, s) is MgaBdsEph ==> class_id == 0x13 && msg_id == 0x03,
        spec_match_packet(version, class_id, msg_id, s) is MgaBdsUtc ==> class_id == 0x13 && msg_id == 0x03,
        spec_match_packet(version, class_id, msg_id, s) is MgaGalEph ==> class_id == 0x13 && msg_id == 0x02,
        spec_match_packet(version, class_id, msg_id, s) is MgaGalTime ==> class_id == 0x13 && msg_id == 0x02,
        spec_match_packet(version, class_id, msg_id, s) is MgaGpsUtc ==> class_id == 0x13 && msg_id == 0x00,
        spec_match_packet(version, class_id, msg_id, s) is CfgValGetResponse ==> class_id == 0x06 && msg_id == 0x8b,
        spec_match_packet(version, class_id, msg_id, s).payload() == s@,
{
    lemma_matched_packet_ids();
}

/// A two-byte payload under class 0x05 is an acknowledgement for id 0x01
/// and a rejection for id 0x00, whatever the protocol version.
pub proof fn lemma_ack_frames_matched<'a>(version: ProtoVersion, s: &'a [u8])
    requires
        s@.len() == 2,
    ensures
        spec_match_packet(version, 0x05, 0x01, s) == PacketRef::AckAck(AckAckRef(s)),
        spec_match_packet(version, 0x05, 0x00, s) == PacketRef::AckNak(AckNakRef(s)),
{
    lemma_matched_packet_ids();
}

/// A frame of class 0x05 and message id 0x01 whose payload a [AckAck]
/// accepts is matched as a [AckAck] packet holding that payload.
pub proof fn lemma_ack_ack_matched_by_ids<'a>(version: ProtoVersion, s: &'a [u8])
    requires
        AckAckRef::spec_validate(s@) is Ok,
    ensures
        spec_match_packet(version, 0x05, 0x01, s) == PacketRef::AckAck(AckAckRef(s)),
{
    lemma_matched_packet_ids();
}

/// A frame of class 0x05 and message id 0x00 whose payload a [AckNak]
/// accepts is matched as a [AckNak] packet holding that payload.
pub proof fn lemma_ack_nak_matched_by_ids<'a>(version: ProtoVersion, s: &'a [u8])
    requires
        AckNakRef::spec_validate(s@) is Ok,
    ensures
        spec_match_packet(version, 0x05, 0x00, s) == PacketRef::AckNak(AckNakRef(s)),
{
    lemma_matched_packet_ids();
}

/// A frame of class 0x01 and message id 0x02 whose payload a [NavPosLlh]
/// accepts is matched as a [NavPosLlh] packet holding that payload.
pub proof fn lemma_nav_pos_llh_matched_by_ids<'a>(version: ProtoVersion, s: &'a [u8])
    requires
        NavPosLlhRef::spec_validate(s@) is Ok,
    ensures
        spec_match_packet(version, 0x01, 0x02, s) == PacketRef::NavPosLlh(NavPosLlhRef(s)),
{
    lemma_matched_packet_ids();
}

/// A frame of class 0x01 and message id 0x07 whose payload a [NavPvt]
/// accepts is matched as a [NavPvt] packet holding that payload.
pub proof fn lemma_nav_pvt_matched_by_ids<'a>(version: ProtoVersion, s: &'a [u8])
    requires
        NavPvtRef::spec_validate(s@, nav_pvt_payload_len(version)) is Ok,
    ensures
        spec_match_packet(version, 0x01, 0x07, s) == PacketRef::NavPvt(NavPvtRef(s)),
{
    lemma_matched_packet_ids();
}

/// A frame of class 0x06 and message id 0x24 whose payload a [CfgNav5]
/// accepts is matched as a [CfgNav5] packet holding that payload.
pub proof fn lemma_cfg_nav5_matched_by_ids<'a>(version: ProtoVersion, s: &'a [u8])
    requires
        CfgNav5Ref::spec_validate(s@) is Ok,
    ensures
        spec_match_packet(version, 0x06, 0x24, s) == PacketRef::CfgNav5(CfgNav5Ref(s)),
{
    lemma_matched_packet_ids();
}

/// A frame of class 0x06 and message id 0x1E whose payload a [CfgOdo]
/// accepts is matched as a [CfgOdo] packet holding that payload.
pub proof fn lemma_cfg_odo_matched_by_ids<'a>(version: ProtoVersion, s: &'a [u8])
    requires
        CfgOdoRef::spec_validate(s@) is Ok,
    ensures
        spec_match_packet(version, 0x06, 0x1E, s) == PacketRef::CfgOdo(CfgOdoRef(s)),
{
    lemma_matched_packet_ids();
}

/// A frame of class 0x06 and message id 0x39 whose payload a [CfgItfm]
/// accepts is matched as a [CfgItfm] packet holding that payload.
pub proof fn lemma_cfg_itfm_matched_by_ids<'a>(version: ProtoVersion, s: &'a [u8])
    requires
        CfgItfmRef::spec_validate(s@) is Ok,
    ensures
        spec_match_packet(version, 0x06, 0x39, s) == PacketRef::CfgItfm(CfgItfmRef(s)),
{
    lemma_matched_packet_ids();
}

/// A frame of class 0x06 and message id 0x00 whose payload a [CfgPrtUart]
/// accepts is matched as a [CfgPrtUart] packet holding that payload.
pub proof fn lemma_cfg_prt_uart_matched_by_ids<'a>(version: ProtoVersion, s: &'a [u8])
    requires
        CfgPrtUartRef::spec_validate(s@) is Ok,
    ensures
        spec_match_packet(version, 0x06, 0x00, s) == PacketRef::CfgPrtUart(CfgPrtUartRef(s)),
{
    lemma_matched_packet_ids();
}

/// A frame of class 0x06 and message id 0x00 whose payload a [CfgPrtSpi]
/// accepts and no packet type listed before it with the same ids accepts it is matched as a [CfgPrtSpi] packet holding that payload.
pub proof fn lemma_cfg_prt_spi_matched_by_ids<'a>(version: ProtoVersion, s: &'a [u8])
    requires
        CfgPrtSpiRef::spec_validate(s@) is Ok,
        CfgPrtUartRef::spec_validate(s@) is Err,
    ensures
        spec_match_packet(version, 0x06, 0x00, s) == PacketRef::CfgPrtSpi(CfgPrtSpiRef(s)),
{
    lemma_matched_packet_ids();
}

/// A frame of class 0x06 and message id 0x00 whose payload a [CfgPrtI2c]
/// accepts and no packet type listed before it with the same ids accepts it is matched as a [CfgPrtI2c] packet holding that payload.
pub proof fn lemma_cfg_prt_i2c_matched_by_ids<'a>(version: ProtoVersion, s: &'a [u8])
    requires
        CfgPrtI2cRef::spec_validate(s@) is Ok,
        CfgPrtUartRef::spec_validate(s@) is Err,
        CfgPrtSpiRef::spec_validate(s@) is Err,
    ensures
        spec_match_packet(version, 0x06, 0x00, s) == PacketRef::CfgPrtI2c(CfgPrtI2cRef(s)),
{
    lemma_matched_packet_ids();
}

/// A frame of class 0x06 and message id 0x02 whose payload a [CfgInf]
/// accepts is matched as a [CfgInf] packet holding that payload.
pub proof fn lemma_cfg_inf_matched_by_ids<'a>(version: ProtoVersion, s: &'a [u8])
    requires
        CfgInfRef::spec_validate(s@) is Ok,
    ensures
        spec_match_packet(version, 0x06, 0x02, s) == PacketRef::CfgInf(CfgInfRef(s)),
{
    lemma_matched_packet_ids();
}

/// A frame of class 0x06 and message id 0x56 whose payload a [CfgEsfAlg]
/// accepts is matched as a [CfgEsfAlg] packet holding that payload.
pub proof fn lemma_cfg_esf_alg_matched_by_ids<'a>(version: ProtoVersion, s: &'a [u8])
    requires
        CfgEsfAlgRef::spec_validate(s@) is Ok,
    ensures
        spec_match_packet(version, 0x06, 0x56, s) == PacketRef::CfgEsfAlg(CfgEsfAlgRef(s)),
{
    lemma_matched_packet_ids();
}

/// A frame of class 0x0a and message id 0x28 whose payload a [MonGnss]
/// accepts is matched as a [MonGnss] packet holding that payload.
pub proof fn lemma_mon_gnss_matched_by_ids<'a>(version: ProtoVersion, s: &'a [u8])
    requires
        MonGnssRef::spec_validate(s@) is Ok,
    ensures
        spec_match_packet(version, 0x0a, 0x28, s) == PacketRef::MonGnss(MonGnssRef(s)),
{
    lemma_matched_packet_ids();
}

/// A frame of class 0x0a and message id 0x09 whose payload a [MonHw]
/// accepts is matched as a [MonHw] packet holding that payload.
pub proof fn lemma_mon_hw_matched_by_ids<'a>(version: ProtoVersion, s: &'a [u8])
    requires
        MonHwRef::spec_validate(s@) is Ok,
    ensures
        spec_match_packet(version, 0x0a, 0x09, s) == PacketRef::MonHw(MonHwRef(s)),
{
    lemma_matched_packet_ids();
}

/// A frame of class 0x13 and message id 0x06 whose payload a [MgaGloEph]
/// accepts is matched as a [MgaGloEph] packet holding that payload.
pub proof fn lemma_mga_glo_eph_matched_by_ids<'a>(version: ProtoVersion, s: &'a [u8])
    requires
        MgaGloEphRef::spec_validate(s@) is Ok,
    ensures
        spec_match_packet(version, 0x13, 0x06, s) == PacketRef::MgaGloEph(MgaGloEphRef(s)),
{
    lemma_matched_packet_ids();
}

/// A frame of class 0x13 and message id 0x00 whose payload a [MgaGpsIono]
/// accepts is matched as a [MgaGpsIono] packet holding that payload.
pub proof fn lemma_mga_gps_iono_matched_by_ids<'a>(version: ProtoVersion, s: &'a [u8])
    requires
        MgaGpsIonoRef::spec_validate(s@) is Ok,
    ensures
        spec_match_packet(version, 0x13, 0x00, s) == PacketRef::MgaGpsIono(MgaGpsIonoRef(s)),
{
    lemma_matched_packet_ids();
}

/// A frame of class 0x13 and message id 0x00 whose payload a [MgaGpsEph]
/// accepts and no packet type listed before it with the same ids accepts it is matched as a [MgaGpsEph] packet holding that payload.
pub proof fn lemma_mga_gps_eph_matched_by_ids<'a>(version: ProtoVersion, s: &'a [u8])
    requires
        MgaGpsEphRef::spec_validate(s@) is Ok,
        MgaGpsIonoRef::spec_validate(s@) is Err,
    ensures
        spec_match_packet(version, 0x13, 0x00, s) == PacketRef::MgaGpsEph(MgaGpsEphRef(s)),
{
    lemma_matched_packet_ids();
}

/// A frame of class 0x13 and message id 0x60 whose payload a [MgaAck]
/// accepts is matched as a [MgaAck] packet holding that payload.
pub proof fn lemma_mga_ack_matched_by_ids<'a>(version: ProtoVersion, s: &'a [u8])
    requires
        MgaAckRef::spec_validate(s@) is Ok,
    ensures
        spec_match_packet(version, 0x13, 0x60, s) == PacketRef::MgaAck(MgaAckRef(s)),
{
    lemma_matched_packet_ids();
}

/// A frame of class 0x10 and message id 0x14 whose payload a [EsfAlg]
/// accepts is matched as a [EsfAlg] packet holding that payload.
pub proof fn lemma_esf_alg_matched_by_ids<'a>(version: ProtoVersion, s: &'a [u8])
    requires
        EsfAlgRef::spec_validate(s@) is Ok,
    ensures
        spec_match_packet(version, 0x10, 0x14, s) == PacketRef::EsfAlg(EsfAlgRef(s)),
{
    lemma_matched_packet_ids();
}

/// A frame of class 0x10 and message id 0x15 whose payload a [EsfIns]
/// accepts is matched as a [EsfIns] packet holding that payload.
pub proof fn lemma_esf_ins_matched_by_ids<'a>(version: ProtoVersion, s: &'a [u8])
    requires
        EsfInsRef::spec_validate(s@) is Ok,
    ensures
        spec_match_packet(version, 0x10, 0x15, s) == PacketRef::EsfIns(EsfInsRef(s)),
{
    lemma_matched_packet_ids();
}

/// A frame of class 0x28 and message id 0x01 whose payload a [HnrAtt]
/// accepts is matched as a [HnrAtt] packet holding that payload.
pub proof fn lemma_hnr_att_matched_by_ids<'a>(version: ProtoVersion, s: &'a [u8])
    requires
        HnrAttRef::spec_validate(s@) is Ok,
    ensures
        spec_match_packet(version, 0x28, 0x01, s) == PacketRef::HnrAtt(HnrAttRef(s)),
{
    lemma_matched_packet_ids();
}

/// A frame of class 0x28 and message id 0x02 whose payload a [HnrIns]
/// accepts is matched as a [HnrIns] packet holding that payload.
pub proof fn lemma_hnr_ins_matched_by_ids<'a>(version: ProtoVersion, s: &'a [u8])
    requires
        HnrInsRef::spec_validate(s@) is Ok,
    ensures
        spec_match_packet(version, 0x28, 0x02, s) == PacketRef::HnrIns(HnrInsRef(s)),
{
    lemma_matched_packet_ids();
}

/// A frame of class 0x27 and message id 0x03 whose payload a [SecUniqId]
/// accepts is matched as a [SecUniqId] packet holding that payload.
pub proof fn lemma_sec_uniq_id_matched_by_ids<'a>(version: ProtoVersion, s: &'a [u8])
    requires
        SecUniqIdRef::spec_validate(s@) is Ok,
    ensures
        spec_match_packet(version, 0x27, 0x03, s) == PacketRef::SecUniqId(SecUniqIdRef(s)),
{
    lemma_matched_packet_ids();
}

/// A frame of class 0x0B and message id 0x32 whose payload a [AlpSrv]
/// accepts is matched as a [AlpSrv] packet holding that payload.
pub proof fn lemma_alp_srv_matched_by_ids<'a>(version: ProtoVersion, s: &'a [u8])
    requires
        AlpSrvRef::spec_validate(s@) is Ok,
    ensures
        spec_match_packet(version, 0x0B, 0x32, s) == PacketRef::AlpSrv(AlpSrvRef(s)),
{
    lemma_matched_packet_ids();
}

/// A frame of class 0x0a and message id 0x36 whose payload a [MonComms]
/// accepts is matched as a [MonComms] packet holding that payload.
pub proof fn lemma_mon_comms_matched_by_ids<'a>(version: ProtoVersion, s: &'a [u8])
    requires
        MonCommsRef::spec_validate(s@) is Ok,
    ensures
        spec_match_packet(version, 0x0a, 0x36, s) == PacketRef::MonComms(MonCommsRef(s)),
{
    lemma_matched_packet_ids();
}

/// A frame of class 0x06 and message id 0x3e whose payload a [CfgGnss]
/// accepts is matched as a [CfgGnss] packet holding that payload.
pub proof fn lemma_cfg_gnss_matched_by_ids<'a>(version: ProtoVersion, s: &'a [u8])
    requires
        CfgGnssRef::spec_validate(s@) is Ok,
    ensures
        spec_match_packet(version, 0x06, 0x3e, s) == PacketRef::CfgGnss(CfgGnssRef(s)),
{
    lemma_matched_packet_ids();
}

/// A frame of class 0x10 and message id 0x10 whose payload a [EsfStatus]
/// accepts is matched as a [EsfStatus] packet holding that payload.
pub proof fn lemma_esf_status_matched_by_ids<'a>(version: ProtoVersion, s: &'a [u8])
    requires
        EsfStatusRef::spec_validate(s@) is Ok,
    ensures
        spec_match_packet(version, 0x10, 0x10, s) == PacketRef::EsfStatus(EsfStatusRef(s)),
{
    lemma_matched_packet_ids();
}

/// A frame of class 0x10 and message id 0x03 whose payload a [EsfRaw]
/// accepts is matched as a [EsfRaw] packet holding that payload.
pub proof fn lemma_esf_raw_matched_by_ids<'a>(version: ProtoVersion, s: &'a [u8])
    requires
        EsfRawRef::spec_validate(s@) is Ok,
    ensures
        spec_match_packet(version, 0x10, 0x03, s) == PacketRef::EsfRaw(EsfRawRef(s)),
{
    lemma_matched_packet_ids();
}

/// A frame of class 0x10 and message id 0x02 whose payload a [EsfMeas]
/// accepts is matched as a [EsfMeas] packet holding that payload.
pub proof fn lemma_esf_meas_matched_by_ids<'a>(version: ProtoVersion, s: &'a [u8])
    requires
        EsfMeasRef::spec_validate(s@) is Ok,
    ensures
        spec_match_packet(version, 0x10, 0x02, s) == PacketRef::EsfMeas(EsfMeasRef(s)),
{
    lemma_matched_packet_ids();
}

/// A frame of class 0x0a and message id 0x04 whose payload a [MonVer]
/// accepts is matched as a [MonVer] packet holding that payload.
pub proof fn lemma_mon_ver_matched_by_ids<'a>(version: ProtoVersion, s: &'a [u8])
    requires
        MonVerRef::spec_validate(s@) is Ok,
    ensures
        spec_match_packet(version, 0x0a, 0x04, s) == PacketRef::MonVer(MonVerRef(s)),
{
    lemma_matched_packet_ids();
}

/// A frame of class 0x06 and message id 0x23 whose payload a [CfgNavX5]
/// accepts is matched as a [CfgNavX5] packet holding that payload.
pub proof fn lemma_cfg_nav_x5_matched_by_ids<'a>(version: ProtoVersion, s: &'a [u8])
    requires
        CfgNavX5Ref::spec_validate(s@) is Ok,
    ensures
        spec_match_packet(version, 0x06, 0x23, s) == PacketRef::CfgNavX5(CfgNavX5Ref(s)),
{
    lemma_matched_packet_ids();
}

/// A frame of class 0x06 and message id 0x13 whose payload a [CfgAnt]
/// accepts is matched as a [CfgAnt] packet holding that payload.
pub proof fn lemma_cfg_ant_matched_by_ids<'a>(version: ProtoVersion, s: &'a [u8])
    requires
        CfgAntRef::spec_validate(s@) is Ok,
    ensures
        spec_match_packet(version, 0x06, 0x13, s) == PacketRef::CfgAnt(CfgAntRef(s)),
{
    lemma_matched_packet_ids();
}

/// A frame of class 0x06 and message id 0x82 whose payload a [CfgEsfWt]
/// accepts is matched as a [CfgEsfWt] packet holding that payload.
pub proof fn lemma_cfg_esf_wt_matched_by_ids<'a>(version: ProtoVersion, s: &'a [u8])
    requires
        CfgEsfWtRef::spec_validate(s@) is Ok,
    ensures
        spec_match_packet(version, 0x06, 0x82, s) == PacketRef::CfgEsfWt(CfgEsfWtRef(s)),
{
    lemma_matched_packet_ids();
}

/// A frame of class 0x06 and message id 0x62 whose payload a [CfgSmgr]
/// accepts is matched as a [CfgSmgr] packet holding that payload.
pub proof fn lemma_cfg_smgr_matched_by_ids<'a>(version: ProtoVersion, s: &'a [u8])
    requires
        CfgSmgrRef::spec_validate(s@) is Ok,
    ensures
        spec_match_packet(version, 0x06, 0x62, s) == PacketRef::CfgSmgr(CfgSmgrRef(s)),
{
    lemma_matched_packet_ids();
}

/// A frame of class 0x06 and message id 0x3d whose payload a [CfgTmode2]
/// accepts is matched as a [CfgTmode2] packet holding that payload.
pub proof fn lemma_cfg_tmode2_matched_by_ids<'a>(version: ProtoVersion, s: &'a [u8])
    requires
        CfgTmode2Ref::spec_validate(s@) is Ok,
    ensures
        spec_match_packet(version, 0x06, 0x3d, s) == PacketRef::CfgTmode2(CfgTmode2Ref(s)),
{
    lemma_matched_packet_ids();
}

/// A frame of class 0x06 and message id 0x71 whose payload a [CfgTmode3]
/// accepts is matched as a [CfgTmode3] packet holding that payload.
pub proof fn lemma_cfg_tmode3_matched_by_ids<'a>(version: ProtoVersion, s: &'a [u8])
    requires
        CfgTmode3Ref::spec_validate(s@) is Ok,
    ensures
        spec_match_packet(version, 0x06, 0x71, s) == PacketRef::CfgTmode3(CfgTmode3Ref(s)),
{
    lemma_matched_packet_ids();
}

/// A frame of class 0x06 and message id 0x31 whose payload a [CfgTp5]
/// accepts is matched as a [CfgTp5] packet holding that payload.
pub proof fn lemma_cfg_tp5_matched_by_ids<'a>(version: ProtoVersion, s: &'a [u8])
    requires
        CfgTp5Ref::spec_validate(s@) is Ok,
    ensures
        spec_match_packet(version, 0x06, 0x31, s) == PacketRef::CfgTp5(CfgTp5Ref(s)),
{
    lemma_matched_packet_ids();
}

/// A frame of class 0x28 and message id 0x00 whose payload a [HnrPvt]
/// accepts is matched as a [HnrPvt] packet holding that payload.
pub proof fn lemma_hnr_pvt_matched_by_ids<'a>(version: ProtoVersion, s: &'a [u8])
    requires
        HnrPvtRef::spec_validate(s@) is Ok,
    ensures
        spec_match_packet(version, 0x28, 0x00, s) == PacketRef::HnrPvt(HnrPvtRef(s)),
{
    lemma_matched_packet_ids();
}

/// A frame of class 0x13 and message id 0x03 whose payload a [MgaBdsEph]
/// accepts is matched as a [MgaBdsEph] packet holding that payload.
pub proof fn lemma_mga_bds_eph_matched_by_ids<'a>(version: ProtoVersion, s: &'a [u8])
    requires
        MgaBdsEphRef::spec_validate(s@) is Ok,
    ensures
        spec_match_packet(version, 0x13, 0x03, s) == PacketRef::MgaBdsEph(MgaBdsEphRef(s)),
{
    lemma_matched_packet_ids();
}

/// A frame of class 0x13 and message id 0x03 whose payload a [MgaBdsUtc]
/// accepts and no packet type listed before it with the same ids accepts it is matched as a [MgaBdsUtc] packet holding that payload.
pub proof fn lemma_mga_bds_utc_matched_by_ids<'a>(version: ProtoVersion, s: &'a [u8])
    requires
        MgaBdsUtcRef::spec_validate(s@) is Ok,
        MgaBdsEphRef::spec_validate(s@) is Err,
    ensures
        spec_match_packet(version, 0x13, 0x03, s) == PacketRef::MgaBdsUtc(MgaBdsUtcRef(s)),
{
    lemma_matched_packet_ids();
}

/// A frame of class 0x13 and message id 0x02 whose payload a [MgaGalEph]
/// accepts is matched as a [MgaGalEph] packet holding that payload.
pub proof fn lemma_mga_gal_eph_matched_by_ids<'a>(version: ProtoVersion, s: &'a [u8])
    requires
        MgaGalEphRef::spec_validate(s@) is Ok,
    ensures
        spec_match_packet(version, 0x13, 0x02, s) == PacketRef::MgaGalEph(MgaGalEphRef(s)),
{
    lemma_matched_packet_ids();
}

/// A frame of class 0x13 and message id 0x02 whose payload a [MgaGalTime]
/// accepts and no packet type listed before it with the same ids accepts it is matched as a [MgaGalTime] packet holding that payload.
pub proof fn lemma_mga_gal_time_matched_by_ids<'a>(version: ProtoVersion, s: &'a [u8])
    requires
        MgaGalTimeRef::spec_validate(s@) is Ok,
        MgaGalEphRef::spec_validate(s@) is Err,
    ensures
        spec_match_packet(version, 0x13, 0x02, s) == PacketRef::MgaGalTime(MgaGalTimeRef(s)),
{
    lemma_matched_packet_ids();
}

/// A frame of class 0x13 and message id 0x00 whose payload a [MgaGpsUtc]
/// accepts and no packet type listed before it with the same ids accepts it is matched as a [MgaGpsUtc] packet holding that payload.
pub proof fn lemma_mga_gps_utc_matched_by_ids<'a>(version: ProtoVersion, s: &'a [u8])
    requires
        MgaGpsUtcRef::spec_validate(s@) is Ok,
        MgaGpsIonoRef::spec_validate(s@) is Err,
        MgaGpsEphRef::spec_validate(s@) is Err,
    ensures
        spec_match_packet(version, 0x13, 0x00, s) == PacketRef::MgaGpsUtc(MgaGpsUtcRef(s)),
{
    lemma_matched_packet_ids();
}

/// A frame of class 0x06 and message id 0x8b whose payload a [CfgValGetResponse]
/// accepts is matched as a [CfgValGetResponse] packet holding that payload.
pub proof fn lemma_cfg_val_get_response_matched_by_ids<'a>(version: ProtoVersion, s: &'a [u8])
    requires
        CfgValGetResponseRef::spec_validate(s@) is Ok,
    ensures
        spec_match_packet(version, 0x06, 0x8b, s) == PacketRef::CfgValGetResponse(CfgValGetResponseRef(s)),
{
    lemma_matched_packet_ids();
}

/// A payload that [CfgNav5Builder] writes is matched, under every protocol
/// version, as a [CfgNav5] packet.
pub proof fn lemma_cfg_nav5_matched<'a>(version: ProtoVersion, b: CfgNav5Builder, s: &'a [u8])
    requires
        s@ == b.payload(),
    ensures
        spec_match_packet(version, CfgNav5::CLASS, CfgNav5::ID, s) == PacketRef::CfgNav5(CfgNav5Ref(s)),
{
    lemma_matched_packet_ids();
    lemma_cfg_nav5_fields_roundtrip(b);
}

/// A payload that [CfgNavX5Builder] writes is matched, under every protocol
/// version, as a [CfgNavX5] packet.
pub proof fn lemma_cfg_nav_x5_matched<'a>(version: ProtoVersion, b: CfgNavX5Builder, s: &'a [u8])
    requires
        s@ == b.payload(),
    ensures
        spec_match_packet(version, CfgNavX5::CLASS, CfgNavX5::ID, s) == PacketRef::CfgNavX5(CfgNavX5Ref(s)),
{
    lemma_matched_packet_ids();
    lemma_cfg_nav_x5_fields_roundtrip(b);
}

/// A payload that [CfgOdoBuilder] writes is matched, under every protocol
/// version, as a [CfgOdo] packet.
pub proof fn lemma_cfg_odo_matched<'a>(version: ProtoVersion, b: CfgOdoBuilder, s: &'a [u8])
    requires
        s@ == b.payload(),
    ensures
        spec_match_packet(version, CfgOdo::CLASS, CfgOdo::ID, s) == PacketRef::CfgOdo(CfgOdoRef(s)),
{
    lemma_matched_packet_ids();
    lemma_cfg_odo_fields_roundtrip(b);
}

/// A payload that [CfgItfmBuilder] writes is matched, under every protocol
/// version, as a [CfgItfm] packet.
pub proof fn lemma_cfg_itfm_matched<'a>(version: ProtoVersion, b: CfgItfmBuilder, s: &'a [u8])
    requires
        s@ == b.payload(),
    ensures
        spec_match_packet(version, CfgItfm::CLASS, CfgItfm::ID, s) == PacketRef::CfgItfm(CfgItfmRef(s)),
{
    lemma_matched_packet_ids();
    lemma_cfg_itfm_fields_roundtrip(b);
}

/// A payload that [CfgPrtUartBuilder] writes is matched, under every protocol
/// version, as a [CfgPrtUart] packet.
pub proof fn lemma_cfg_prt_uart_matched<'a>(version: ProtoVersion, b: CfgPrtUartBuilder, s: &'a [u8])
    requires
        s@ == b.payload(),
    ensures
        spec_match_packet(version, CfgPrtUart::CLASS, CfgPrtUart::ID, s) == PacketRef::CfgPrtUart(CfgPrtUartRef(s)),
{
    lemma_matched_packet_ids();
    lemma_cfg_prt_uart_fields_roundtrip(b);
}

/// A payload that [CfgPrtSpiBuilder] writes is matched, under every protocol
/// version, as a [CfgPrtSpi] packet.
pub proof fn lemma_cfg_prt_spi_matched<'a>(version: ProtoVersion, b: CfgPrtSpiBuilder, s: &'a [u8])
    requires
        s@ == b.payload(),
    ensures
        spec_match_packet(version, CfgPrtSpi::CLASS, CfgPrtSpi::ID, s) == PacketRef::CfgPrtSpi(CfgPrtSpiRef(s)),
{
    lemma_matched_packet_ids();
    lemma_cfg_prt_spi_fields_roundtrip(b);
}

/// A payload that [CfgPrtI2cBuilder] writes is matched, under every protocol
/// version, as a [CfgPrtI2c] packet.
pub proof fn lemma_cfg_prt_i2c_matched<'a>(version: ProtoVersion, b: CfgPrtI2cBuilder, s: &'a [u8])
    requires
        s@ == b.payload(),
    ensures
        spec_match_packet(version, CfgPrtI2c::CLASS, CfgPrtI2c::ID, s) == PacketRef::CfgPrtI2c(CfgPrtI2cRef(s)),
{
    lemma_matched_packet_ids();
    lemma_cfg_prt_i2c_fields_roundtrip(b);
}

/// A payload that [CfgInfBuilder] writes is matched, under every protocol
/// version, as a [CfgInf] packet.
pub proof fn lemma_cfg_inf_matched<'a>(version: ProtoVersion, b: CfgInfBuilder, s: &'a [u8])
    requires
        s@ == b.payload(),
    ensures
        spec_match_packet(version, CfgInf::CLASS, CfgInf::ID, s) == PacketRef::CfgInf(CfgInfRef(s)),
{
    lemma_matched_packet_ids();
    lemma_cfg_inf_fields_roundtrip(b);
}

/// A payload that [CfgEsfAlgBuilder] writes is matched, under every protocol
/// version, as a [CfgEsfAlg] packet.
pub proof fn lemma_cfg_esf_alg_matched<'a>(version: ProtoVersion, b: CfgEsfAlgBuilder, s: &'a [u8])
    requires
        s@ == b.payload(),
    ensures
        spec_match_packet(version, CfgEsfAlg::CLASS, CfgEsfAlg::ID, s) == PacketRef::CfgEsfAlg(CfgEsfAlgRef(s)),
{
    lemma_matched_packet_ids();
    lemma_cfg_esf_alg_fields_roundtrip(b);
}

/// A payload that [CfgAntBuilder] writes is matched, under every protocol
/// version, as a [CfgAnt] packet.
pub proof fn lemma_cfg_ant_matched<'a>(version: ProtoVersion, b: CfgAntBuilder, s: &'a [u8])
    requires
        s@ == b.payload(),
    ensures
        spec_match_packet(version, CfgAnt::CLASS, CfgAnt::ID, s) == PacketRef::CfgAnt(CfgAntRef(s)),
{
    lemma_matched_packet_ids();
    lemma_cfg_ant_fields_roundtrip(b);
}

/// A payload that [CfgEsfWtBuilder] writes is matched, under every protocol
/// version, as a [CfgEsfWt] packet.
pub proof fn lemma_cfg_esf_wt_matched<'a>(version: ProtoVersion, b: CfgEsfWtBuilder, s: &'a [u8])
    requires
        s@ == b.payload(),
    ensures
        spec_match_packet(version, CfgEsfWt::CLASS, CfgEsfWt::ID, s) == PacketRef::CfgEsfWt(CfgEsfWtRef(s)),
{
    lemma_matched_packet_ids();
    lemma_cfg_esf_wt_fields_roundtrip(b);
}

/// A payload that [CfgSmgrBuilder] writes is matched, under every protocol
/// version, as a [CfgSmgr] packet.
pub proof fn lemma_cfg_smgr_matched<'a>(version: ProtoVersion, b: CfgSmgrBuilder, s: &'a [u8])
    requires
        s@ == b.payload(),
    ensures
        spec_match_packet(version, CfgSmgr::CLASS, CfgSmgr::ID, s) == PacketRef::CfgSmgr(CfgSmgrRef(s)),
{
    lemma_matched_packet_ids();
    lemma_cfg_smgr_fields_roundtrip(b);
}

/// A payload that [CfgTmode2Builder] writes is matched, under every protocol
/// version, as a [CfgTmode2] packet.
pub proof fn lemma_cfg_tmode2_matched<'a>(version: ProtoVersion, b: CfgTmode2Builder, s: &'a [u8])
    requires
        s@ == b.payload(),
    ensures
        spec_match_packet(version, CfgTmode2::CLASS, CfgTmode2::ID, s) == PacketRef::CfgTmode2(CfgTmode2Ref(s)),
{
    lemma_matched_packet_ids();
    lemma_cfg_tmode2_fields_roundtrip(b);
}

/// A payload that [CfgTmode3Builder] writes is matched, under every protocol
/// version, as a [CfgTmode3] packet.
pub proof fn lemma_cfg_tmode3_matched<'a>(version: ProtoVersion, b: CfgTmode3Builder, s: &'a [u8])
    requires
        s@ == b.payload(),
    ensures
        spec_match_packet(version, CfgTmode3::CLASS, CfgTmode3::ID, s) == PacketRef::CfgTmode3(CfgTmode3Ref(s)),
{
    lemma_matched_packet_ids();
    lemma_cfg_tmode3_fields_roundtrip(b);
}

/// A payload that [CfgTp5Builder] writes is matched, under every protocol
/// version, as a [CfgTp5] packet.
pub proof fn lemma_cfg_tp5_matched<'a>(version: ProtoVersion, b: CfgTp5Builder, s: &'a [u8])
    requires
        s@ == b.payload(),
    ensures
        spec_match_packet(version, CfgTp5::CLASS, CfgTp5::ID, s) == PacketRef::CfgTp5(CfgTp5Ref(s)),
{
    lemma_matched_packet_ids();
    lemma_cfg_tp5_fields_roundtrip(b);
}

/// A payload that [MgaBdsEphBuilder] writes is matched, under every protocol
/// version, as a [MgaBdsEph] packet.
pub proof fn lemma_mga_bds_eph_matched<'a>(version: ProtoVersion, b: MgaBdsEphBuilder, s: &'a [u8])
    requires
        s@ == b.payload(),
    ensures
        spec_match_packet(version, MgaBdsEph::CLASS, MgaBdsEph::ID, s) == PacketRef::MgaBdsEph(MgaBdsEphRef(s)),
{
    lemma_matched_packet_ids();
    lemma_mga_bds_eph_fields_roundtrip(b);
}

/// A payload that [MgaGalEphBuilder] writes is matched, under every protocol
/// version, as a [MgaGalEph] packet.
pub proof fn lemma_mga_gal_eph_matched<'a>(version: ProtoVersion, b: MgaGalEphBuilder, s: &'a [u8])
    requires
        s@ == b.payload(),
    ensures
        spec_match_packet(version, MgaGalEph::CLASS, MgaGalEph::ID, s) == PacketRef::MgaGalEph(MgaGalEphRef(s)),
{
    lemma_matched_packet_ids();
    lemma_mga_gal_eph_fields_roundtrip(b);
}

/// A payload that [MgaGalTimeBuilder] writes is matched, under every protocol
/// version, as a [MgaGalTime] packet.
pub proof fn lemma_mga_gal_time_matched<'a>(version: ProtoVersion, b: MgaGalTimeBuilder, s: &'a [u8])
    requires
        s@ == b.payload(),
    ensures
        spec_match_packet(version, MgaGalTime::CLASS, MgaGalTime::ID, s) == PacketRef::MgaGalTime(MgaGalTimeRef(s)),
{
    lemma_matched_packet_ids();
    lemma_mga_gal_time_fields_roundtrip(b);
}

/// A payload that [MgaGpsUtcBuilder] writes is matched, under every protocol
/// version, as a [MgaGpsUtc] packet.
pub proof fn lemma_mga_gps_utc_matched<'a>(version: ProtoVersion, b: MgaGpsUtcBuilder, s: &'a [u8])
    requires
        s@ == b.payload(),
    ensures
        spec_match_packet(version, MgaGpsUtc::CLASS, MgaGpsUtc::ID, s) == PacketRef::MgaGpsUtc(MgaGpsUtcRef(s)),
{
    lemma_matched_packet_ids();
    lemma_mga_gps_utc_fields_roundtrip(b);
}

} // verus!
