use ublox::ubx_packets::packet_ref::PacketRef;
use ublox::{AnyPacketRef, Parser, ParserError, UbxPacket, UnderlyingBuffer};

const ACK_ACK: [u8; 10] = [0xb5, 0x62, 0x5, 0x1, 0x2, 0x0, 0x4, 0x5, 0x11, 0x38];

#[test]
fn rtcm_frame_then_ubx_packet() {
    // an RTCM3 frame announcing a three-byte message, then an ACK-ACK
    let mut bytes = vec![0x00, 0xd3, 0x00, 0x03, 0xaa, 0xbb, 0xcc];
    bytes.extend_from_slice(&ACK_ACK);
    let mut parser = Parser::default_proto();
    let mut it = parser.consume_ubx_rtcm(&bytes);
    match it.next() {
        Some(Ok(AnyPacketRef::Rtcm(p))) => assert_eq!(p.data, &[0xd3, 0x00, 0x03, 0xaa, 0xbb, 0xcc]),
        _ => panic!(),
    }
    match it.next() {
        Some(Ok(AnyPacketRef::Ubx(UbxPacket::Proto14(PacketRef::AckAck(_))))) => {},
        _ => panic!(),
    }
    assert!(it.next().is_none());
    it.finish();
    assert!(parser.is_buffer_empty());
}

#[test]
fn rtcm_length_uses_ten_bits() {
    // the reserved bits of the length field are ignored
    let bytes = [0xd3, 0xfc, 0x01, 0x42];
    let mut parser = Parser::default_proto();
    let mut it = parser.consume_ubx_rtcm(&bytes);
    match it.next() {
        Some(Ok(AnyPacketRef::Rtcm(p))) => assert_eq!(p.data, &[0xd3, 0xfc, 0x01, 0x42]),
        _ => panic!(),
    }
    it.finish();
}

#[test]
fn nmea_sentence_then_rtcm() {
    let mut bytes = b"$GPGGA,1*00\r\n".to_vec();
    bytes.extend_from_slice(&[0xd3, 0x00, 0x00]);
    let mut parser = Parser::default_proto();
    let mut it = parser.consume_ubx_rtcm_nmea(&bytes);
    match it.next() {
        Some(Ok(AnyPacketRef::Nmea(p))) => assert_eq!(p.data, b"$GPGGA,1*00\r\n"),
        _ => panic!(),
    }
    match it.next() {
        Some(Ok(AnyPacketRef::Rtcm(p))) => assert_eq!(p.data, &[0xd3, 0x00, 0x00]),
        _ => panic!(),
    }
    assert!(it.next().is_none());
    it.finish();
}

#[test]
fn unterminated_nmea_is_abandoned_for_next_frame() {
    let mut bytes = b"$GPGGA,12".to_vec();
    bytes.extend_from_slice(&ACK_ACK);
    let mut parser = Parser::default_proto();
    let mut it = parser.consume_ubx_rtcm_nmea(&bytes);
    // the sentence start is dropped, nothing is returned yet
    assert!(it.next().is_none());
    match it.next() {
        Some(Ok(AnyPacketRef::Ubx(UbxPacket::Proto14(PacketRef::AckAck(_))))) => {},
        _ => panic!(),
    }
    it.finish();
}

#[test]
fn overlong_nmea_is_dropped() {
    let mut bytes = vec![b'$'];
    bytes.extend_from_slice(&[b'A'; 90]);
    let mut parser = Parser::default_proto();
    let mut it = parser.consume_ubx_rtcm_nmea(&bytes);
    assert!(it.next().is_none());
    it.finish();
    assert!(parser.is_buffer_empty());
}

#[test]
fn short_nmea_waits_for_more_bytes() {
    let mut parser = Parser::default_proto();
    let mut it = parser.consume_ubx_rtcm_nmea(b"$GPGGA,1");
    assert!(it.next().is_none());
    it.finish();
    assert_eq!(parser.buffer_len(), 8);
    let mut it = parser.consume_ubx_rtcm_nmea(b"*00\r\n");
    match it.next() {
        Some(Ok(AnyPacketRef::Nmea(p))) => assert_eq!(p.data, b"$GPGGA,1*00\r\n"),
        _ => panic!(),
    }
    it.finish();
}

#[test]
fn ubx_only_iterator_drops_other_frames() {
    let mut bytes = vec![0xd3, 0x00, 0x00, b'$'];
    bytes.extend_from_slice(&ACK_ACK);
    let mut parser = Parser::default_proto();
    let mut it = parser.consume_ubx(&bytes);
    match it.next() {
        Some(Ok(UbxPacket::Proto14(PacketRef::AckAck(_)))) => {},
        _ => panic!(),
    }
    assert!(it.next().is_none());
    it.finish();
}

#[test]
fn bad_checksum_drops_sync_and_resyncs() {
    let mut bytes = vec![0xb5, 0x62, 0x5, 0x1, 0x2, 0x0, 0x4, 0x5, 0x11, 0x39];
    bytes.extend_from_slice(&ACK_ACK);
    let mut parser = Parser::default_proto();
    let mut it = parser.consume_ubx(&bytes);
    assert_eq!(
        it.next().map(|r| r.err()),
        Some(Some(ParserError::InvalidChecksum { expect: 0x3911, got: 0x3811 }))
    );
    match it.next() {
        Some(Ok(UbxPacket::Proto14(PacketRef::AckAck(_)))) => {},
        _ => panic!(),
    }
    it.finish();
}

#[test]
fn split_frame_across_calls() {
    let mut parser = Parser::default_proto();
    let mut it = parser.consume_ubx(&ACK_ACK[..4]);
    assert!(it.next().is_none());
    it.finish();
    assert_eq!(parser.buffer_len(), 4);
    let mut it = parser.consume_ubx(&ACK_ACK[4..]);
    match it.next() {
        Some(Ok(UbxPacket::Proto14(PacketRef::AckAck(a)))) => assert_eq!(a.class(), 4),
        _ => panic!(),
    }
    it.finish();
    assert!(parser.is_buffer_empty());
}

#[test]
fn too_long_payload_drops_sync() {
    // announces a payload longer than the protocol allows
    let mut bytes = vec![0xb5, 0x62, 0x5, 0x1, 0xff, 0xff];
    bytes.extend_from_slice(&ACK_ACK);
    let mut parser = Parser::default_proto();
    let mut it = parser.consume_ubx(&bytes);
    match it.next() {
        Some(Ok(UbxPacket::Proto14(PacketRef::AckAck(_)))) => {},
        _ => panic!(),
    }
    it.finish();
}

#[test]
fn vec_underlying_buffer() {
    let mut v: Vec<u8> = Vec::new();
    assert_eq!(UnderlyingBuffer::extend_from_slice(&mut v, &[1, 2, 3]), 0);
    assert_eq!(UnderlyingBuffer::len(&v), 3);
    UnderlyingBuffer::drain(&mut v, 10);
    assert_eq!(UnderlyingBuffer::len(&v), 0);
}
