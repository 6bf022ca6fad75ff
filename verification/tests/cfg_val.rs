use ublox::ubx_packets::cfg_val::CfgKey;
use ublox::ubx_packets::packets::cfg_val::{CfgVal, CfgValIter};

#[test]
fn cfg_val_new_keeps_value_bytes_of_key_size() {
    let baud = CfgVal::new(CfgKey::UART1_BAUDRATE, 115_200).unwrap();
    assert_eq!(baud.key(), 0x40520001);
    assert_eq!(baud.len(), 8);
    assert_eq!(baud.value_bytes(), &115_200u32.to_le_bytes());
    let enabled = CfgVal::new(CfgKey::UART1_ENABLED, 0x1_01).unwrap();
    assert_eq!(enabled.len(), 5);
    assert_eq!(enabled.value_bytes(), &[1]);
    assert!(!enabled.is_empty());
    assert!(CfgVal::new(0x1234_5678, 1).is_none());
}

#[test]
fn cfg_val_extend_and_write_give_key_then_value() {
    let v = CfgVal::new(CfgKey::UART1_BAUDRATE, 9600).unwrap();
    let mut out = vec![0xaa];
    assert_eq!(v.extend_to(&mut out), 8);
    assert_eq!(out, vec![0xaa, 0x01, 0x00, 0x52, 0x40, 0x80, 0x25, 0x00, 0x00]);
    let mut buf = [0xffu8; 10];
    assert_eq!(v.write_to(&mut buf), 8);
    assert_eq!(buf, [0x01, 0x00, 0x52, 0x40, 0x80, 0x25, 0x00, 0x00, 0xff, 0xff]);
}

#[test]
fn cfg_val_parse_known_and_unknown_keys() {
    let bytes = [0x01, 0x00, 0x52, 0x40, 0x00, 0xc2, 0x01, 0x00, 0x77];
    let v = CfgVal::parse(&bytes).unwrap();
    assert_eq!(v.key(), CfgKey::UART1_BAUDRATE);
    assert_eq!(v.value_bytes(), &115_200u32.to_le_bytes());
    assert!(CfgVal::parse(&[0x78, 0x56, 0x34, 0x12, 0x00]).is_none());
}

#[test]
fn cfg_val_iter_reads_back_written_values() {
    let values = [
        CfgVal::new(CfgKey::UART1_BAUDRATE, 115_200).unwrap(),
        CfgVal::new(CfgKey::UART1_ENABLED, 1).unwrap(),
        CfgVal::new(CfgKey::UART1_STOP_BITS, 1).unwrap(),
    ];
    let mut data = [0u8; 32];
    let mut it = CfgValIter::new(&mut data, &values);
    let a = it.next().unwrap();
    assert_eq!(a.key(), CfgKey::UART1_BAUDRATE);
    assert_eq!(a.value_bytes(), &115_200u32.to_le_bytes());
    let b = it.next().unwrap();
    assert_eq!(b.key(), CfgKey::UART1_ENABLED);
    assert_eq!(b.value_bytes(), &[1]);
    let c = it.next().unwrap();
    assert_eq!(c.key(), CfgKey::UART1_STOP_BITS);
    assert!(it.next().is_none());
}

#[test]
fn cfg_val_iter_from_bytes_stops_on_short_or_unknown() {
    assert!(!CfgValIter::is_valid(&[1, 2, 3, 4]));
    assert!(CfgValIter::is_valid(&[1, 2, 3, 4, 5]));
    let bytes = [0x05, 0x00, 0x52, 0x10, 0x01, 0x78, 0x56, 0x34, 0x12, 0x00];
    let mut it = CfgValIter::from_bytes(&bytes);
    let v = it.next().unwrap();
    assert_eq!(v.key(), CfgKey::UART1_ENABLED);
    assert!(it.next().is_none());
    assert!(it.next().is_none());
}
