use ublox::ubx_packets::packets::mon_ver::MonVerRef;
use ublox::ubx_packets::frame::build_frame;
use ublox::ubx_packets::packet_ref::PacketRef;
use ublox::ubx_packets::packets::ack::{AckAck, AckAckRef};
use ublox::ubx_packets::packets::cfg::{
    CfgMsgAllPortsBuilder, CfgMsgSinglePortBuilder, CfgNav5, CfgNav5Builder, CfgRstBuilder,
};
use ublox::ubx_packets::packets::cfg_gnss::{
    CfgGnssBuilder, CfgGnssRef, GnssConfigBlock, GnssId, SigCfgMask, GPS_SIG_L1CA, GPS_SIG_L2C,
};
use ublox::ubx_packets::packets::cfg_itfm::{CfgItfmConfig, CfgItfmConfig2};
use ublox::ubx_packets::packets::cfg_prt::{DataBits, Parity, StopBits, UartMode};
use ublox::ubx_packets::packets::enums::{CfgItfmAntennaSettings, ResetMode};
use ublox::ubx_packets::packets::esf_meas::{
    EsfMeasBuilder, EsfMeasData, EsfMeasFlagsBuilder, EsfMeasRef,
};
use ublox::ubx_packets::packets::esf_status::{
    EsfInitStatus1, EsfSensorStatusCalibration, EsfSensorType, EsfStatusMountAngle, EsfStatusRef,
};
use ublox::ubx_packets::packets::mon_comms::{MonCommsRef, PortId};
use ublox::ubx_packets::cfg_val::{KeyId, StorageSize};
use ublox::{Parser, UbxPacket, UbxPacketMeta, UbxPacketRequest};

#[test]
fn port_id_from_u16_matches_interface_manuals() {
    // portId values from the u-blox integration manuals
    assert_eq!(PortId::from(0x0000), PortId::I2c);
    assert_eq!(PortId::from(0x0100), PortId::Uart1);
    assert_eq!(PortId::from(0x0200), PortId::Uart2);
    assert_eq!(PortId::from(0x0201), PortId::Uart2);
    assert_eq!(PortId::from(0x0300), PortId::Usb);
    assert_eq!(PortId::from(0x0400), PortId::Spi);
    // An unrecognized interface (high byte) preserves the raw value.
    assert_eq!(PortId::from(0x0500), PortId::Unknown(0x0500));
    assert_eq!(PortId::from(0xFFFF), PortId::Unknown(0xFFFF));
}

#[test]
fn serialize_and_parse() {
    let blocks = [
        GnssConfigBlock { gnss_id: GnssId::GPS, ..Default::default() },
        GnssConfigBlock { gnss_id: GnssId::GALILEO, ..Default::default() },
    ];

    let builder = CfgGnssBuilder {
        msg_version: 0,
        num_trk_ch_hw: 1,
        num_trk_ch_use: 2,
        ..Default::default()
    }
    .with_blocks(&blocks);

    let mut out = Vec::new();
    builder.extend_to(&mut out);

    const HEADER_LEN: usize = 6;
    const LEN_LSB: usize = 4;
    const LEN_MSB: usize = 5;
    let len = u16::from_le_bytes([out[LEN_LSB], out[LEN_MSB]]) as usize;
    let payload = &out[HEADER_LEN..HEADER_LEN + len];

    assert!(CfgGnssRef::validate(payload).is_ok());

    let r = CfgGnssRef(payload);
    assert_eq!(r.num_config_blocks(), blocks.len() as u8);

    let mut parsed: Vec<GnssConfigBlock> = Vec::new();
    let mut it = r.blocks();
    while let Some(b) = it.next() {
        parsed.push(b);
    }
    assert_eq!(parsed.len(), blocks.len());
    assert_eq!(parsed[0].gnss_id, GnssId::GPS);
    assert_eq!(parsed[1].gnss_id, GnssId::GALILEO);
    assert_eq!(parsed[0].gnss_id as u8, blocks[0].gnss_id as u8);
    assert_eq!(parsed[1].gnss_id as u8, blocks[1].gnss_id as u8);
}

#[test]
fn gnss_block_fields() {
    let b = GnssConfigBlock::new(true, GnssId::GPS, 8, 16, SigCfgMask::Gps(GPS_SIG_L1CA | GPS_SIG_L2C));
    assert!(b.enabled());
    assert_eq!(b.flags, 0x0011_0001);
    assert_eq!(b.raw_sig_mask(), 0x11);
    assert_eq!(b.sig_cfg_mask(), SigCfgMask::Gps(0x11));
    let mut out = Vec::new();
    assert_eq!(b.extend_to(&mut out), 8);
    assert_eq!(out, vec![0, 8, 16, 0, 0x01, 0x00, 0x11, 0x00]);
    let off = GnssConfigBlock::new(false, GnssId::IMES, 0, 0, SigCfgMask::Unknown(0xff));
    assert!(!off.enabled());
    assert_eq!(off.sig_cfg_mask(), SigCfgMask::Unknown(0xff));
    assert_eq!(GnssId::try_from(6u8), Ok(GnssId::GLONASS));
    assert!(GnssId::try_from(7u8).is_err());
}

#[test]
fn gnss_block_with_unknown_system_is_skipped() {
    let payload = [0u8, 0, 0, 2, 9, 1, 1, 0, 0, 0, 0, 0, 2, 1, 1, 0, 0, 0, 0, 0];
    let r = CfgGnssRef(&payload);
    assert!(CfgGnssRef::validate(&payload).is_ok());
    let mut it = r.blocks();
    assert!(it.next().is_none());
    assert_eq!(it.next().unwrap().gnss_id, GnssId::GALILEO);
    assert!(it.next().is_none());
    assert!(CfgGnssRef::validate(&payload[..12]).is_err());
}

#[test]
fn mon_comms_ports() {
    let mut payload = vec![0u8, 1, 0, 0, 0, 1, 2, 0xff];
    let mut block = [0u8; 40];
    block[0] = 0x01;
    block[1] = 0x02; // UART2
    block[2] = 0x10; // tx pending
    block[8] = 7; // tx usage
    block[20] = 3; // first message count
    block[36] = 0x78;
    block[37] = 0x56;
    block[38] = 0x34;
    block[39] = 0x12;
    payload.extend_from_slice(&block);
    assert!(MonCommsRef::validate(&payload).is_ok());
    assert!(MonCommsRef::validate(&payload[..20]).is_err());
    let r = MonCommsRef(&payload);
    assert_eq!(r.n_ports(), 1);
    assert_eq!(r.prot_ids(), [0, 1, 2, 0xff]);
    let mut it = r.ports();
    let p = it.next().unwrap();
    assert_eq!(p.port_id, PortId::Uart2);
    assert_eq!(p.tx_pending, 0x10);
    assert_eq!(p.tx_usage, 7);
    assert_eq!(p.msgs, [3, 0, 0, 0]);
    assert_eq!(p.skipped, 0x1234_5678);
    assert!(it.next().is_none());
}

#[test]
fn esf_status_fields() {
    let mut payload = vec![0u8; 16];
    payload[5] = 0b0100_1110; // wheel ticks 2, mount angle 3, ins 2
    payload[15] = 1;
    payload.extend_from_slice(&[0xC5, 0x07, 50, 0x21]);
    assert!(EsfStatusRef::validate(&payload).is_ok());
    let r = EsfStatusRef(&payload);
    let init = r.init_status1();
    assert_eq!(init.wheel_tick_init_status_raw(), 2);
    assert_eq!(init.mounting_angle_status(), EsfStatusMountAngle::Initialized);
    assert_eq!(init.ins_initialization_status_raw(), 2);
    let mut it = r.data();
    let s = it.next().unwrap();
    assert_eq!(s.sensor_type(), EsfSensorType::GyroZ);
    assert!(s.sensor_used());
    assert!(s.sensor_ready());
    assert_eq!(s.calibration_status(), EsfSensorStatusCalibration::Calibrated);
    assert_eq!(s.calibration_status_raw(), 2);
    assert_eq!(s.time_status_raw(), 1);
    assert_eq!(s.freq(), 50);
    // an undefined fault bit gives no faults at all
    assert_eq!(s.faults_raw(), 0);
    assert!(it.next().is_none());
    assert_eq!(EsfInitStatus1(0x1c).mounting_angle_status(), EsfStatusMountAngle::Invalid);
}

#[test]
fn esf_meas_build_and_parse() {
    let data = [
        EsfMeasData { data_type: EsfSensorType::Speed, data_field: 1234 },
        EsfMeasData { data_type: EsfSensorType::GyroX, data_field: -5 },
    ];
    let builder = EsfMeasBuilder { itow: 7, id: 3, ..Default::default() }
        .with_measurement_data(&data)
        .with_calib_tag(Some(0xdead_beef));
    assert_eq!(builder.flags.num_meas(), 2);
    assert!(builder.flags.calib_tag_valid());
    let mut out = Vec::new();
    builder.extend_to(&mut out);
    let len = u16::from_le_bytes([out[4], out[5]]) as usize;
    assert_eq!(len, 8 + 8 + 4);
    let payload = &out[6..6 + len];
    assert!(EsfMeasRef::validate(payload).is_ok());
    let r = EsfMeasRef(payload);
    assert_eq!(r.itow(), 7);
    assert_eq!(r.id(), 3);
    assert_eq!(r.calib_tag(), Some(0xdead_beef));
    let mut it = r.data();
    let first = it.next().unwrap();
    assert_eq!(first.data_type, EsfSensorType::Speed);
    assert_eq!(first.data_field, 1234);
    assert_eq!(first.direction(), 1);
    // a negative value is written with its low bits and read back negated
    let second = it.next().unwrap();
    assert_eq!(second.data_type, EsfSensorType::GyroX);
    assert_eq!(second.data_field, -0xFF_FFFB);
    assert_eq!(second.direction(), -1);
    assert!(it.next().is_none());
}

#[test]
fn esf_meas_flags_builder() {
    let f = EsfMeasFlagsBuilder::new()
        .time_mark_sent(1)
        .time_mark_edge(true)
        .calib_tag_valid(true)
        .num_meas(3)
        .build();
    assert_eq!(f.into_raw(), (1 << 1) | (1 << 2) | (1 << 3) | (3 << 11));
    assert_eq!(f.num_meas(), 3);
    assert!(f.calib_tag_valid());
    assert!(f.time_mark_edge());
    assert_eq!(f.time_mark_sent(), 2);
    assert!(!f.enable_calibration_tag(false).calib_tag_valid());
}

#[test]
fn uart_mode_words() {
    let m = UartMode::new(DataBits::Eight, Parity::NoParity, StopBits::One);
    assert_eq!(m.into_raw(), 0x8C0);
    assert_eq!(UartMode::from(0x8C0), m);
    assert_eq!(UartMode::from(0x3280).stop_bits, StopBits::Half);
    assert_eq!(UartMode::from(0x3280).parity, Parity::Odd);
    assert_eq!(UartMode::from(0x3280).data_bits, DataBits::Seven);
}

#[test]
fn itfm_config_words() {
    let c = CfgItfmConfig::new(true, 3, 15);
    assert_eq!(c.into_raw(), 0x8000_0000 | (15 << 4) | 3 | (0x16B156 << 9));
    let c2 = CfgItfmConfig2::new(CfgItfmAntennaSettings::Passive, true);
    assert_eq!(c2.into_raw(), (1 << 14) | 0x31E | 2);
    assert_eq!(CfgItfmConfig2::from(0x2000).antenna, CfgItfmAntennaSettings::Passive);
    assert!(CfgItfmConfig::from(0x8000_0000).enable);
}

#[test]
fn request_and_rate_frames() {
    let req = UbxPacketRequest::request_for::<CfgNav5>().into_packet_bytes();
    assert_eq!(req, [0xb5, 0x62, 0x06, 0x24, 0x00, 0x00, 0x2a, 0x84]);
    let req = UbxPacketRequest::request_for_unknown(0x0a, 0x04).into_packet_bytes();
    assert_eq!(&req[..6], &[0xb5, 0x62, 0x0a, 0x04, 0x00, 0x00]);
    let single = CfgMsgSinglePortBuilder::set_rate_for::<AckAck>(2).into_packet_bytes();
    assert_eq!(&single[..9], &[0xb5, 0x62, 0x06, 0x01, 0x03, 0x00, 0x05, 0x01, 0x02]);
    let all = CfgMsgAllPortsBuilder::set_rate_for::<AckAck>([1, 2, 3, 4, 5, 6]).into_packet_bytes();
    assert_eq!(all.len(), 16);
    assert_eq!(&all[6..14], &[0x05, 0x01, 1, 2, 3, 4, 5, 6]);
    let rst = CfgRstBuilder { nav_bbr_mask: 0xffff, reset_mode: ResetMode::ControlledGpsStart, reserved1: 0 }
        .into_packet_bytes();
    assert_eq!(&rst[..10], &[0xb5, 0x62, 0x06, 0x04, 0x04, 0x00, 0xff, 0xff, 0x09, 0x00]);
}

#[test]
fn built_frame_reads_back() {
    let frame = build_frame(AckAck::CLASS, AckAck::ID, &[0x06, 0x24]);
    let mut parser = Parser::default_proto();
    let mut it = parser.consume_ubx(&frame);
    match it.next() {
        Some(Ok(UbxPacket::Proto14(PacketRef::AckAck(a)))) => {
            assert!(a.is_ack_for::<CfgNav5>());
            assert_eq!(a.class(), 0x06);
        },
        _ => panic!(),
    }
    assert!(it.next().is_none());
    it.finish();
    assert!(AckAckRef::validate(&[1, 2, 3]).is_err());
    let nav5 = CfgNav5Builder::default().into_packet_bytes();
    assert_eq!(nav5.len(), 44);
}

#[test]
fn key_id_parts() {
    let k = KeyId(0x40520001);
    assert_eq!(k.value_size(), StorageSize::FourBytes);
    assert_eq!(k.value_size().to_usize(), 4);
    assert_eq!(k.group_id(), 0x52);
    assert_eq!(k.item_id(), 0x01);
    let mut out = Vec::new();
    assert_eq!(k.extend_to(&mut out), 4);
    assert_eq!(out, vec![0x01, 0x00, 0x52, 0x40]);
    assert_eq!(KeyId(0x10520005).value_size(), StorageSize::OneBit);
}

#[test]
fn test_mon_ver_interpret() {
    let payload: [u8; 160] = [
        82, 79, 77, 32, 67, 79, 82, 69, 32, 51, 46, 48, 49, 32, 40, 49, 48, 55, 56, 56, 56, 41, 0,
        0, 0, 0, 0, 0, 0, 0, 48, 48, 48, 56, 48, 48, 48, 48, 0, 0, 70, 87, 86, 69, 82, 61, 83, 80,
        71, 32, 51, 46, 48, 49, 0, 0, 0, 0, 0, 0, 0, 0, 0, 0, 0, 0, 0, 0, 0, 0, 80, 82, 79, 84, 86,
        69, 82, 61, 49, 56, 46, 48, 48, 0, 0, 0, 0, 0, 0, 0, 0, 0, 0, 0, 0, 0, 0, 0, 0, 0, 71, 80,
        83, 59, 71, 76, 79, 59, 71, 65, 76, 59, 66, 68, 83, 0, 0, 0, 0, 0, 0, 0, 0, 0, 0, 0, 0, 0,
        0, 0, 83, 66, 65, 83, 59, 73, 77, 69, 83, 59, 81, 90, 83, 83, 0, 0, 0, 0, 0, 0, 0, 0, 0, 0,
        0, 0, 0, 0, 0, 0,
    ];
    assert_eq!(Ok(()), MonVerRef::validate(&payload));
    let ver = MonVerRef(&payload);
    assert_eq!("ROM CORE 3.01 (107888)", ver.software_version());
    assert_eq!("00080000", ver.hardware_version());
    let mut it = ver.extension();
    assert_eq!("FWVER=SPG 3.01", it.next().unwrap());
    assert_eq!("PROTVER=18.00", it.next().unwrap());
    assert_eq!("GPS;GLO;GAL;BDS", it.next().unwrap());
    assert_eq!("SBAS;IMES;QZSS", it.next().unwrap());
    assert_eq!(None, it.next());
}

#[test]
fn mon_ver_rejects_text_without_nul() {
    let payload = [b'A'; 40];
    assert!(MonVerRef::validate(&payload).is_err());
    let mut bad_utf8 = [0u8; 40];
    bad_utf8[0] = 0xff;
    assert!(MonVerRef::validate(&bad_utf8).is_err());
    assert!(MonVerRef::validate(&[0u8; 40]).is_ok());
}
