use std::collections::VecDeque;

use ublox::segmenter::{Packet, Segmenter};
use ublox::ParserError;

fn ack_ack() -> Packet {
    Packet { class: 0x05, msg_id: 0x01, payload: vec![0x02, 0x03] }
}

#[test]
fn segmentation_works() {
    let mut p = Segmenter::new();
    let res = p.consume(&[0xb5, 0x62, 0x05, 0x01, 0x02, 0x00, 0x02, 0x03, 0x0d, 0x32]);
    assert_eq!(res.unwrap().unwrap(), ack_ack());
    assert_eq!(p.consume(&[]).unwrap(), None);
}

#[test]
fn segmentation_skips_to_sync_leaves_extras() {
    let mut p = Segmenter::new();
    let res = p.consume(&[
        0x64, 0x12, 0x06, 0xb5, 0x01, 0x62, 0xb5, 0x62, 0x05, 0x01, 0x02, 0x00, 0x02, 0x03, 0x0d,
        0x32, 0x1, 0x2, 0x3,
    ]);
    assert_eq!(res.unwrap().unwrap(), ack_ack());
    // the three bytes left start no frame: the next step keeps only the last
    assert_eq!(p.consume(&[]).unwrap(), None);
    let res = p.consume(&[0x62, 0x05, 0x01, 0x02, 0x00, 0x02, 0x03, 0x0d, 0x32]);
    assert_eq!(res.unwrap(), None);
}

#[test]
fn consume_all_consumes_all() {
    let buf = vec![
        0x64, 0x12, 0x06, 0xb5, 0x01, 0x62, 0xb5, 0x62, 0x05, 0x01, 0x02, 0x00, 0x02, 0x03, 0x0d,
        0x32, 0x1, 0x2, 0x3,
    ];
    let mut buf2 = vec![];
    buf2.extend_from_slice(&buf[..]);
    buf2.extend_from_slice(&buf[..]);
    let buf = buf2;

    let mut p = Segmenter::new();

    let res = p.consume_all(&buf).unwrap();
    assert_eq!(res.len(), 2);
    assert_eq!(res[0], ack_ack());
    assert_eq!(res[1], ack_ack());
}

#[test]
fn segmentation_reports_bad_checksum() {
    let mut p = Segmenter::new();
    let res = p.consume(&[0xb5, 0x62, 0x05, 0x01, 0x02, 0x00, 0x02, 0x03, 0x0d, 0x33]);
    assert_eq!(res, Err(ParserError::InvalidChecksum { expect: 0x330d, got: 0x320d }));
    // the bad frame is gone
    let res = p.consume(&[0xb5, 0x62, 0x05, 0x01, 0x02, 0x00, 0x02, 0x03, 0x0d, 0x32]);
    assert_eq!(res.unwrap().unwrap(), ack_ack());
}

#[test]
fn segmentation_waits_for_whole_frame() {
    let mut p = Segmenter::new();
    assert_eq!(p.consume(&[0xb5, 0x62, 0x05, 0x01, 0x02]).unwrap(), None);
    assert_eq!(p.consume(&[0x00, 0x02, 0x03, 0x0d]).unwrap(), None);
    assert_eq!(p.consume(&[0x32]).unwrap().unwrap(), ack_ack());
    let _unused: VecDeque<u8> = VecDeque::new();
}
