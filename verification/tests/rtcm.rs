use ublox::RtcmPacketRef;

fn crc24q(data: &[u8]) -> u32 {
    let mut crc: u32 = 0;
    for &b in data {
        crc ^= (b as u32) << 16;
        for _ in 0..8 {
            crc <<= 1;
            if crc & 0x100_0000 != 0 {
                crc ^= 0x186_4cfb;
            }
        }
    }
    crc & 0xff_ffff
}

fn rtcm_frame(message: &[u8]) -> Vec<u8> {
    let mut f = vec![0xd3, ((message.len() >> 8) & 0x3) as u8, (message.len() & 0xff) as u8];
    f.extend_from_slice(message);
    let crc = crc24q(&f);
    f.extend_from_slice(&[(crc >> 16) as u8, (crc >> 8) as u8, crc as u8]);
    f
}

#[test]
fn rtcm_interpret_decodes_frame_with_valid_crc() {
    let frame = rtcm_frame(&[0x3e, 0xd0, 0x00, 0x01]);
    let packet = RtcmPacketRef { data: &frame };
    let decoded = packet.interpret().expect("valid frame");
    assert_eq!(decoded.frame_len(), frame.len());
    assert_eq!(decoded.message_number(), Some(1005));
}

#[test]
fn rtcm_interpret_rejects_bad_crc() {
    let mut frame = rtcm_frame(&[0x3e, 0xd0, 0x00, 0x01]);
    let last = frame.len() - 1;
    frame[last] ^= 0xff;
    let packet = RtcmPacketRef { data: &frame };
    assert!(packet.interpret().is_none());
}
