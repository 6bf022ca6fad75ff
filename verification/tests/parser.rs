use ublox::constants::{UBX_CHECKSUM_LEN, UBX_CLASS_OFFSET, UBX_HEADER_LEN, UBX_SYNC_CHAR_1, UBX_SYNC_CHAR_2};
use ublox::proto14::Proto14;
use ublox::proto23::Proto23;
use ublox::proto27::Proto27;
use ublox::proto31::Proto31;
use ublox::ubx_packets::packet_ref::PacketRef;
use ublox::ubx_packets::packets::cfg::CfgNav5Builder;
use ublox::ubx_packets::packets::enums::{NavDynamicModel, NavFixMode, UtcStandardIdentifier};
use ublox::{FixedBuffer, FixedLinearBuffer, Parser, ParserBuilder, ParserError, UbxPacket};

#[test]
fn build_parser() {
    // Default protocol with Vec buffer
    let parser = ParserBuilder::new().with_vec_buffer();
    assert_eq!(parser.buffer_capacity(), usize::MAX);
    assert_eq!(parser.buffer_len(), 0);

    // Different protocol
    const BUF_SZ_0: usize = 2048;
    let parser = ParserBuilder::new()
        .with_protocol::<Proto23>()
        .with_fixed_buffer::<BUF_SZ_0>();
    assert_eq!(parser.buffer_capacity(), BUF_SZ_0);
    assert_eq!(parser.buffer_len(), 0);

    // Custom buffer
    const BUF_SZ_1: usize = 512;
    let mut my_buffer = [0; BUF_SZ_1];
    let buffer = FixedLinearBuffer::new(&mut my_buffer);
    let parser = ParserBuilder::new()
        .with_protocol::<Proto31>()
        .with_buffer(buffer);

    assert_eq!(parser.buffer_capacity(), BUF_SZ_1);
    assert_eq!(parser.buffer_len(), 0);
}

#[test]
fn parser_oom_processes_multiple_small_packets() {
    let packet = [0xb5, 0x62, 0x5, 0x1, 0x2, 0x0, 0x4, 0x5, 0x11, 0x38];

    let mut bytes = vec![];
    bytes.extend_from_slice(&packet);
    bytes.extend_from_slice(&packet);
    bytes.extend_from_slice(&packet);
    bytes.extend_from_slice(&packet);
    bytes.extend_from_slice(&packet);

    let mut buffer = [0; 10];
    let buffer = FixedLinearBuffer::new(&mut buffer);
    let mut parser: Parser<FixedLinearBuffer<'_>, Proto23> = Parser::new(buffer);

    let mut it = parser.consume_ubx(&bytes);
    for _ in 0..5 {
        assert!(matches!(
            it.next(),
            Some(Ok(UbxPacket::Proto23(PacketRef::AckAck(_))))
        ));
    }
    assert!(it.next().is_none());
    it.finish();
}

const BYTES_GARBAGE: [u8; 11] = [0xb5, 0xb5, 0x62, 0x5, 0x1, 0x2, 0x0, 0x4, 0x5, 0x11, 0x38];

#[test]
fn parser_handle_garbage_first_byte_default() {
    let mut parser = Parser::default_proto();
    {
        let mut it = parser.consume_ubx(&BYTES_GARBAGE);
        assert!(it.next().is_some());
        assert!(it.next().is_none());
        it.finish();
    }
}

#[test]
fn parser_handle_garbage_first_byte_proto14() {
    let mut buffer = [0; 12];
    let buffer = FixedLinearBuffer::new(&mut buffer);
    let mut parser: Parser<FixedLinearBuffer<'_>, Proto14> = Parser::new(buffer);
    {
        let mut it = parser.consume_ubx(&BYTES_GARBAGE);
        assert!(matches!(
            it.next(),
            Some(Ok(UbxPacket::Proto14(PacketRef::AckAck(_))))
        ));
        assert!(it.next().is_none());
        it.finish();
    }
}

#[test]
fn parser_handle_garbage_first_byte_proto23() {
    let mut buffer = [0; 12];
    let buffer = FixedLinearBuffer::new(&mut buffer);
    let mut parser: Parser<FixedLinearBuffer<'_>, Proto23> = Parser::new(buffer);
    {
        let mut it = parser.consume_ubx(&BYTES_GARBAGE);
        assert!(matches!(
            it.next(),
            Some(Ok(UbxPacket::Proto23(PacketRef::AckAck(_))))
        ));
        assert!(it.next().is_none());
        it.finish();
    }
}

#[test]
fn parser_handle_garbage_first_byte_proto27() {
    let mut buffer = [0; 12];
    let buffer = FixedLinearBuffer::new(&mut buffer);
    let mut parser: Parser<FixedLinearBuffer<'_>, Proto27> = Parser::new(buffer);
    {
        let mut it = parser.consume_ubx(&BYTES_GARBAGE);
        assert!(matches!(
            it.next(),
            Some(Ok(UbxPacket::Proto27(PacketRef::AckAck(_))))
        ));
        assert!(it.next().is_none());
        it.finish();
    }
}

#[test]
fn parser_handle_garbage_first_byte_proto31() {
    let mut buffer = [0; 12];
    let mut parser: Parser<_, Proto31> = Parser::new(FixedLinearBuffer::new(&mut buffer));
    {
        let mut it = parser.consume_ubx(&BYTES_GARBAGE);
        assert!(matches!(
            it.next(),
            Some(Ok(UbxPacket::Proto31(PacketRef::AckAck(_))))
        ));
        assert!(it.next().is_none());
        it.finish();
    }
}

fn test_util_cfg_nav5_bytes() -> [u8; 44] {
    CfgNav5Builder {
        mask: 1, // apply the dynamic model settings
        dyn_model: NavDynamicModel::AirborneWithLess1gAcceleration,
        fix_mode: NavFixMode::Only3D,
        fixed_alt_raw: (100.17f64 * 100.0).round() as i32,
        fixed_alt_var_raw: (0.0017f64 * 10000.0).round() as u32,
        min_elev_degrees: 17,
        pdop_raw: (1.7f32 * 10.0).round() as u16,
        tdop_raw: (1.7f32 * 10.0).round() as u16,
        pacc: 17,
        tacc: 17,
        static_hold_thresh_raw: (2.17f32 * 100.0).round() as u8,
        dgps_time_out: 17,
        cno_thresh_num_svs: 17,
        cno_thresh: 17,
        static_hold_max_dist: 0x1717,
        utc_standard: UtcStandardIdentifier::UtcChina,
        ..CfgNav5Builder::default()
    }
    .into_packet_bytes()
}

#[test]
fn parser_oom_clears_buffer_proto14() {
    let bytes = test_util_cfg_nav5_bytes();

    let mut buffer = [0; 12];
    let mut parser = Parser::<_, Proto14>::new(FixedLinearBuffer::new(&mut buffer));

    {
        let mut it = parser.consume_ubx(&bytes[0..8]);
        assert!(it.next().is_none());
        it.finish();
    }

    {
        let mut it = parser.consume_ubx(&bytes[8..]);
        assert!(
            matches!(it.next(), Some(Err(ParserError::OutOfMemory { required_size })) if required_size == bytes.len() - 6)
        );
        assert!(it.next().is_none());
        it.finish();
    }

    // Should now be empty, and we can parse a small packet
    let bytes = [0xb5, 0x62, 0x5, 0x1, 0x2, 0x0, 0x4, 0x5, 0x11, 0x38];

    {
        let mut it = parser.consume_ubx(&bytes);
        assert!(matches!(
            it.next(),
            Some(Ok(UbxPacket::Proto14(PacketRef::AckAck(_))))
        ));
        assert!(it.next().is_none());
        it.finish();
    }
}

#[test]
fn parser_oom_clears_buffer_proto23() {
    let bytes = test_util_cfg_nav5_bytes();

    let mut buffer = [0; 12];
    let mut parser = Parser::<_, Proto23>::new(FixedLinearBuffer::new(&mut buffer));

    {
        let mut it = parser.consume_ubx(&bytes[0..8]);
        assert!(it.next().is_none());
        it.finish();
    }

    {
        let mut it = parser.consume_ubx(&bytes[8..]);
        assert!(
            matches!(it.next(), Some(Err(ParserError::OutOfMemory { required_size })) if required_size == bytes.len() - 6)
        );
        assert!(it.next().is_none());
        it.finish();
    }

    let bytes = [0xb5, 0x62, 0x5, 0x1, 0x2, 0x0, 0x4, 0x5, 0x11, 0x38];

    {
        let mut it = parser.consume_ubx(&bytes);
        assert!(matches!(
            it.next(),
            Some(Ok(UbxPacket::Proto23(PacketRef::AckAck(_))))
        ));
        assert!(it.next().is_none());
        it.finish();
    }
}

#[test]
fn parser_oom_clears_buffer_proto27() {
    let bytes = test_util_cfg_nav5_bytes();

    let mut parser = ParserBuilder::new()
        .with_protocol::<Proto27>()
        .with_fixed_buffer::<12>();

    {
        let mut it = parser.consume_ubx(&bytes[0..8]);
        assert!(it.next().is_none());
        it.finish();
    }

    {
        let mut it = parser.consume_ubx(&bytes[8..]);
        assert!(
            matches!(it.next(), Some(Err(ParserError::OutOfMemory { required_size })) if required_size == bytes.len() - 6)
        );
        assert!(it.next().is_none());
        it.finish();
    }

    let bytes = [0xb5, 0x62, 0x5, 0x1, 0x2, 0x0, 0x4, 0x5, 0x11, 0x38];

    {
        let mut it = parser.consume_ubx(&bytes);
        assert!(matches!(
            it.next(),
            Some(Ok(UbxPacket::Proto27(PacketRef::AckAck(_))))
        ));
        assert!(it.next().is_none());
        it.finish();
    }
}

#[test]
fn parser_oom_clears_buffer_proto31() {
    let bytes = test_util_cfg_nav5_bytes();
    let mut parser = ParserBuilder::new()
        .with_protocol::<Proto31>()
        .with_fixed_buffer::<12>();

    {
        let mut it = parser.consume_ubx(&bytes[0..8]);
        assert!(it.next().is_none());
        it.finish();
    }

    {
        let mut it = parser.consume_ubx(&bytes[8..]);
        assert!(
            matches!(it.next(), Some(Err(ParserError::OutOfMemory { required_size })) if required_size == bytes.len() - 6)
        );
        assert!(it.next().is_none());
        it.finish();
    }

    let bytes = [0xb5, 0x62, 0x5, 0x1, 0x2, 0x0, 0x4, 0x5, 0x11, 0x38];

    {
        let mut it = parser.consume_ubx(&bytes);
        assert!(matches!(
            it.next(),
            Some(Ok(UbxPacket::Proto31(PacketRef::AckAck(_))))
        ));
        assert!(it.next().is_none());
        it.finish();
    }
}

#[test]
fn parser_accepts_packet_array_underlying_proto14() {
    let bytes = test_util_cfg_nav5_bytes();
    let mut parser = ParserBuilder::new()
        .with_protocol::<Proto14>()
        .with_fixed_buffer::<1024>();
    let mut it = parser.consume_ubx(&bytes);
    assert!(matches!(
        it.next(),
        Some(Ok(UbxPacket::Proto14(PacketRef::CfgNav5(_))))
    ));
    assert!(it.next().is_none());
    it.finish();
}

#[test]
fn parser_accepts_packet_array_underlying_proto23() {
    let bytes = test_util_cfg_nav5_bytes();
    let mut parser = Parser::<FixedBuffer<1024>, Proto23>::with_fixed_buffer();
    let mut it = parser.consume_ubx(&bytes);
    assert!(matches!(
        it.next(),
        Some(Ok(UbxPacket::Proto23(PacketRef::CfgNav5(_))))
    ));
    assert!(it.next().is_none());
    it.finish();
}

#[test]
fn parser_accepts_packet_array_underlying_proto27() {
    let bytes = test_util_cfg_nav5_bytes();
    let mut parser = ParserBuilder::new()
        .with_protocol::<Proto27>()
        .with_fixed_buffer::<1024>();
    let mut it = parser.consume_ubx(&bytes);
    assert!(matches!(
        it.next(),
        Some(Ok(UbxPacket::Proto27(PacketRef::CfgNav5(_))))
    ));
    assert!(it.next().is_none());
    it.finish();
}

#[test]
fn parser_accepts_packet_array_underlying_proto31() {
    let bytes = test_util_cfg_nav5_bytes();
    let mut parser = ParserBuilder::new()
        .with_protocol::<Proto31>()
        .with_fixed_buffer::<1024>();
    let mut it = parser.consume_ubx(&bytes);
    assert!(matches!(
        it.next(),
        Some(Ok(UbxPacket::Proto31(PacketRef::CfgNav5(_))))
    ));
    assert!(it.next().is_none());
    it.finish();
}

#[test]
fn parser_accepts_packet_vec_underlying_proto14() {
    let bytes = test_util_cfg_nav5_bytes();
    let mut parser = Parser::<_, Proto14>::default();
    let mut it = parser.consume_ubx(&bytes);
    assert!(matches!(
        it.next(),
        Some(Ok(UbxPacket::Proto14(PacketRef::CfgNav5(_))))
    ));
    assert!(it.next().is_none());
    it.finish();
}

#[test]
fn parser_accepts_packet_vec_underlying_proto23() {
    let bytes = test_util_cfg_nav5_bytes();
    let mut parser = Parser::<_, Proto23>::default();
    let mut it = parser.consume_ubx(&bytes);
    assert!(matches!(
        it.next(),
        Some(Ok(UbxPacket::Proto23(PacketRef::CfgNav5(_))))
    ));
    assert!(it.next().is_none());
    it.finish();
}

#[test]
fn parser_accepts_packet_vec_underlying_proto27() {
    let bytes = test_util_cfg_nav5_bytes();
    let mut parser = Parser::<_, Proto27>::default();
    let mut it = parser.consume_ubx(&bytes);
    assert!(matches!(
        it.next(),
        Some(Ok(UbxPacket::Proto27(PacketRef::CfgNav5(_))))
    ));
    assert!(it.next().is_none());
    it.finish();
}

#[test]
fn parser_accepts_packet_vec_underlying_proto31() {
    let bytes = test_util_cfg_nav5_bytes();
    let mut parser = Parser::<_, Proto31>::default();
    let mut it = parser.consume_ubx(&bytes);
    assert!(matches!(
        it.next(),
        Some(Ok(UbxPacket::Proto31(PacketRef::CfgNav5(_))))
    ));
    assert!(it.next().is_none());
    it.finish();
}

fn test_util_multiple_cfg_nav5_packets_bytes() -> Vec<u8> {
    let mut data = vec![];
    data.extend_from_slice(
        &CfgNav5Builder {
            pacc: 21,
            ..CfgNav5Builder::default()
        }
        .into_packet_bytes(),
    );
    data.extend_from_slice(
        &CfgNav5Builder {
            pacc: 18,
            ..CfgNav5Builder::default()
        }
        .into_packet_bytes(),
    );
    data
}

#[test]
fn parser_accepts_multiple_packets_proto14() {
    let data = test_util_multiple_cfg_nav5_packets_bytes();
    let mut parser = Parser::<_, Proto14>::default();
    let mut it = parser.consume_ubx(&data);
    match it.next() {
        Some(Ok(UbxPacket::Proto14(PacketRef::CfgNav5(packet)))) => {
            assert_eq!(packet.pacc(), 21);
        },
        _ => {
            panic!()
        },
    }
    match it.next() {
        Some(Ok(UbxPacket::Proto14(PacketRef::CfgNav5(packet)))) => {
            assert_eq!(packet.pacc(), 18);
        },
        _ => {
            panic!()
        },
    }
    assert!(it.next().is_none());
    it.finish();
}

#[test]
fn parser_accepts_multiple_packets_proto23() {
    let data = test_util_multiple_cfg_nav5_packets_bytes();
    let mut parser = Parser::<_, Proto23>::default();
    let mut it = parser.consume_ubx(&data);
    match it.next() {
        Some(Ok(UbxPacket::Proto23(PacketRef::CfgNav5(packet)))) => {
            assert_eq!(packet.pacc(), 21);
        },
        _ => {
            panic!()
        },
    }
    match it.next() {
        Some(Ok(UbxPacket::Proto23(PacketRef::CfgNav5(packet)))) => {
            assert_eq!(packet.pacc(), 18);
        },
        _ => {
            panic!()
        },
    }
    assert!(it.next().is_none());
    it.finish();
}

#[test]
fn parser_accepts_multiple_packets_proto27() {
    let data = test_util_multiple_cfg_nav5_packets_bytes();
    let mut parser = Parser::<_, Proto27>::default();
    let mut it = parser.consume_ubx(&data);
    match it.next() {
        Some(Ok(UbxPacket::Proto27(PacketRef::CfgNav5(packet)))) => {
            assert_eq!(packet.pacc(), 21);
        },
        _ => {
            panic!()
        },
    }
    match it.next() {
        Some(Ok(UbxPacket::Proto27(PacketRef::CfgNav5(packet)))) => {
            assert_eq!(packet.pacc(), 18);
        },
        _ => {
            panic!()
        },
    }
    assert!(it.next().is_none());
    it.finish();
}

#[test]
fn parser_accepts_multiple_packets_proto31() {
    let data = test_util_multiple_cfg_nav5_packets_bytes();
    let mut parser = Parser::<_, Proto31>::default();
    let mut it = parser.consume_ubx(&data);
    match it.next() {
        Some(Ok(UbxPacket::Proto31(PacketRef::CfgNav5(packet)))) => {
            assert_eq!(packet.pacc(), 21);
        },
        _ => {
            panic!()
        },
    }
    match it.next() {
        Some(Ok(UbxPacket::Proto31(PacketRef::CfgNav5(packet)))) => {
            assert_eq!(packet.pacc(), 18);
        },
        _ => {
            panic!()
        },
    }
    assert!(it.next().is_none());
    it.finish();
}

const ACK_ACK_BYTES: [u8; 10] = [
    UBX_SYNC_CHAR_1,
    UBX_SYNC_CHAR_2,
    0x05,
    0x01,
    0x02,
    0x00,
    0x04,
    0x05,
    0x11,
    0x38,
];

#[test]
fn test_ack_ack_payload_len_proto14() {
    const ACK_ACK_PAYLOAD_LEN: usize = 2;
    let mut parser = Parser::<FixedBuffer<1024>, Proto14>::with_fixed_buffer();
    let mut it = parser.consume_ubx(&ACK_ACK_BYTES);
    match it.next() {
        Some(Ok(UbxPacket::Proto14(PacketRef::AckAck(pack)))) => {
            assert_eq!(ACK_ACK_PAYLOAD_LEN, pack.payload_len());
        },
        _ => panic!(),
    }
    it.finish();
}

#[test]
fn test_ack_ack_payload_len_proto23() {
    const ACK_ACK_PAYLOAD_LEN: usize = 2;
    let mut parser = Parser::<FixedBuffer<1024>, Proto23>::with_fixed_buffer();
    let mut it = parser.consume_ubx(&ACK_ACK_BYTES);
    match it.next() {
        Some(Ok(UbxPacket::Proto23(PacketRef::AckAck(pack)))) => {
            assert_eq!(ACK_ACK_PAYLOAD_LEN, pack.payload_len());
        },
        _ => panic!(),
    }
    it.finish();
}

// NAV-PVT payload lengths differ across protocols: proto14=84, proto23/27/31=92
const NAV_PVT_CLASS: u8 = 0x01;
const NAV_PVT_ID: u8 = 0x07;
const NAV_PVT_PROTO14_LEN: usize = 84;
const NAV_PVT_PROTO23_LEN: usize = 92;

fn build_nav_pvt_frame(frame: &mut [u8]) {
    frame[0] = UBX_SYNC_CHAR_1;
    frame[1] = UBX_SYNC_CHAR_2;
    frame[2] = NAV_PVT_CLASS;
    frame[3] = NAV_PVT_ID;
    let payload_len = (frame.len() - UBX_HEADER_LEN - UBX_CHECKSUM_LEN) as u16;
    let len_bytes = payload_len.to_le_bytes();
    frame[4] = len_bytes[0];
    frame[5] = len_bytes[1];
    let n = frame.len();
    let (ck_a, ck_b) = ublox::checksum::ubx_checksum(&frame[UBX_CLASS_OFFSET..(n - UBX_CHECKSUM_LEN)]);
    frame[n - 2] = ck_a;
    frame[n - 1] = ck_b;
}

#[test]
fn test_nav_pvt_payload_len_proto14() {
    const PACKET_LEN: usize = NAV_PVT_PROTO14_LEN + UBX_HEADER_LEN + UBX_CHECKSUM_LEN;
    let mut packet = [0; PACKET_LEN];
    build_nav_pvt_frame(&mut packet);
    let mut parser = Parser::<FixedBuffer<1024>, Proto14>::with_fixed_buffer();
    let mut it = parser.consume_ubx(&packet);
    match it.next() {
        Some(Ok(UbxPacket::Proto14(PacketRef::NavPvt(p)))) => {
            assert_eq!(NAV_PVT_PROTO14_LEN, p.payload_len())
        },
        _ => panic!(),
    }
    it.finish();
}

#[test]
fn test_nav_pvt_payload_len_proto23() {
    const PACKET_LEN: usize = NAV_PVT_PROTO23_LEN + UBX_HEADER_LEN + UBX_CHECKSUM_LEN;
    let mut packet = [0; PACKET_LEN];
    build_nav_pvt_frame(&mut packet);
    let mut parser = Parser::<FixedBuffer<1024>, Proto23>::with_fixed_buffer();
    let mut it = parser.consume_ubx(&packet);
    match it.next() {
        Some(Ok(UbxPacket::Proto23(PacketRef::NavPvt(p)))) => {
            assert_eq!(NAV_PVT_PROTO23_LEN, p.payload_len())
        },
        _ => panic!(),
    }
    it.finish();
}
