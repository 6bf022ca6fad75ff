use ublox::protocol::{parse_buffer, BufferHeadContents};
use ublox::ubx_packets::packet_ref::PacketRef;

fn check(head1: BufferHeadContents, head2: BufferHeadContents) {
    let ok = match (head1, head2) {
        (BufferHeadContents::Garbage(n), BufferHeadContents::Garbage(n2)) => n == n2,
        (BufferHeadContents::IncompleteHeader, BufferHeadContents::IncompleteHeader) => true,
        (BufferHeadContents::Incomplete(n), BufferHeadContents::Incomplete(n2)) => n == n2,
        (BufferHeadContents::Packet(_), BufferHeadContents::Packet(_)) => true,
        (BufferHeadContents::InvalidChecksum(n), BufferHeadContents::InvalidChecksum(n2)) => n == n2,
        _ => false,
    };
    assert!(ok);
}

#[test]
fn parse_single_packet() {
    check(parse_buffer(&[0xb5]), BufferHeadContents::IncompleteHeader);
    check(parse_buffer(&[0xb5, 0x62]), BufferHeadContents::IncompleteHeader);
    check(parse_buffer(&[0xb5, 0x62, 0x5]), BufferHeadContents::IncompleteHeader);
    check(parse_buffer(&[0xb5, 0x62, 0x5, 0x1]), BufferHeadContents::IncompleteHeader);
    check(parse_buffer(&[0xb5, 0x62, 0x5, 0x1, 0x2]), BufferHeadContents::IncompleteHeader);
    check(
        parse_buffer(&[0xb5, 0x62, 0x5, 0x1, 0x2, 0x0]),
        BufferHeadContents::Incomplete(4),
    );
    check(
        parse_buffer(&[0xb5, 0x62, 0x5, 0x1, 0x2, 0x0, 0x4]),
        BufferHeadContents::Incomplete(3),
    );
    check(
        parse_buffer(&[0xb5, 0x62, 0x5, 0x1, 0x2, 0x0, 0x4, 0x5]),
        BufferHeadContents::Incomplete(2),
    );
    check(
        parse_buffer(&[0xb5, 0x62, 0x5, 0x1, 0x2, 0x0, 0x4, 0x5, 0x11]),
        BufferHeadContents::Incomplete(1),
    );
    match parse_buffer(&[0xb5, 0x62, 0x5, 0x1, 0x2, 0x0, 0x4, 0x5, 0x11, 0x38]) {
        BufferHeadContents::Packet(_) => {},
        _ => assert!(false),
    }
}

#[test]
fn discard_initial_garbage() {
    check(
        parse_buffer(&[0xb5, 0x13, 0xb5, 0x62, 0x5, 0x1, 0x2, 0x0, 0x4, 0x5, 0x11, 0x38]),
        BufferHeadContents::Garbage(2),
    );
}

#[test]
fn invalid_checksum() {
    check(
        parse_buffer(&[0xb5, 0x62, 0x5, 0x1, 0x2, 0x0, 0x4, 0x5, 0x11, 0x39]),
        BufferHeadContents::InvalidChecksum(10),
    );
}

#[test]
fn incomplete_header() {
    check(parse_buffer(&[0x13, 0x14, 0xb5, 0x62]), BufferHeadContents::Garbage(2));
    check(parse_buffer(&[0x13, 0x14, 0x15, 0xb5]), BufferHeadContents::Garbage(3));
}

#[test]
fn garbage_without_any_sync() {
    check(parse_buffer(&[0x13, 0x14, 0x15]), BufferHeadContents::Garbage(3));
}

#[test]
fn parse_buffer_matches_the_payload() {
    match parse_buffer(&[0xb5, 0x62, 0x5, 0x1, 0x2, 0x0, 0x4, 0x5, 0x11, 0x38, 0xff]) {
        BufferHeadContents::Packet(PacketRef::AckAck(ack)) => {
            assert_eq!(ack.class(), 4);
            assert_eq!(ack.msg_id(), 5);
        },
        _ => panic!("expected an ACK-ACK packet"),
    }
}
