use ublox::ubx_packets::packets::cfg::{CfgNav5Builder, CfgNav5Ref, CfgPrtUartBuilder, CfgPrtUartRef};
use ublox::ubx_packets::packets::enums::{NavDynamicModel, NavFixMode, UartPortId, UtcStandardIdentifier};

#[test]
fn cfg_prt_uart_fields_read_back() {
    let bytes = CfgPrtUartBuilder {
        portid: UartPortId::Uart1,
        reserved0: 0,
        tx_ready: 0x1234,
        mode: 0x8d0,
        baud_rate: 115_200,
        in_proto_mask: 0x07,
        out_proto_mask: 0x01,
        flags: 2,
        reserved5: 0,
    }
    .into_packet_bytes();
    let payload = &bytes[6..bytes.len() - 2];
    assert!(CfgPrtUartRef::validate(payload).is_ok());
    let r = CfgPrtUartRef(payload);
    assert_eq!(r.portid(), UartPortId::Uart1);
    assert_eq!(r.tx_ready(), 0x1234);
    assert_eq!(r.mode(), 0x8d0);
    assert_eq!(r.baud_rate(), 115_200);
    assert_eq!(r.in_proto_mask(), 0x07);
    assert_eq!(r.out_proto_mask(), 0x01);
    assert_eq!(r.flags(), 2);
}

#[test]
fn cfg_nav5_signed_fields_read_back() {
    let mut b = CfgNav5Builder::default();
    b.dyn_model = NavDynamicModel::Sea;
    b.fix_mode = NavFixMode::Only3D;
    b.fixed_alt_raw = -1234;
    b.min_elev_degrees = -5;
    b.utc_standard = UtcStandardIdentifier::UtcSu;
    let bytes = b.into_packet_bytes();
    let payload = &bytes[6..bytes.len() - 2];
    assert!(CfgNav5Ref::validate(payload).is_ok());
    let r = CfgNav5Ref(payload);
    assert_eq!(r.dyn_model(), NavDynamicModel::Sea);
    assert_eq!(r.fix_mode(), NavFixMode::Only3D);
    assert_eq!(r.fixed_alt_raw(), -1234);
    assert_eq!(r.min_elev_degrees(), -5);
    assert_eq!(r.utc_standard(), UtcStandardIdentifier::UtcSu);
}
