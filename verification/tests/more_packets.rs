use ublox::ubx_packets::cfg_val::CfgKey;
use ublox::ubx_packets::packet_ref::{match_packet, PacketRef, ProtoVersion};
use ublox::ubx_packets::packets::cfg_tp5::{CfgTp5Builder, CfgTp5Ref};
use ublox::ubx_packets::packets::cfg_val::{
    CfgVal, CfgValGetRequestBuilder, CfgValSetBuilder, CFG_LAYER_SET_RAM,
};
use ublox::ubx_packets::packets::enums::{CfgLayerGet, CfgTp5TimePulseMode, GnssFixType};
use ublox::ubx_packets::packets::hnr_pvt::HnrPvtRef;
use ublox::ubx_packets::packets::mga_gal_time::MgaGalTimeBuilder;

fn checksum(bytes: &[u8]) -> (u8, u8) {
    let (mut a, mut b) = (0u8, 0u8);
    for &x in bytes {
        a = a.wrapping_add(x);
        b = b.wrapping_add(a);
    }
    (a, b)
}

#[test]
fn cfg_tp5_builder_fields_read_back() {
    let mut b = CfgTp5Builder::default();
    b.tp_idx = CfgTp5TimePulseMode::TimePulse2;
    b.ant_cable_delay_raw = -50;
    b.freq_period_raw = 1_000_000;
    b.user_delay_raw = -7;
    b.flags = 0x77;
    let bytes = b.into_packet_bytes();
    assert_eq!(&bytes[0..6], &[0xb5, 0x62, 0x06, 0x31, 32, 0]);
    let payload = &bytes[6..38];
    assert!(CfgTp5Ref::validate(payload).is_ok());
    let r = CfgTp5Ref(payload);
    assert_eq!(r.tp_idx(), CfgTp5TimePulseMode::TimePulse2);
    assert_eq!(r.ant_cable_delay_raw(), -50);
    assert_eq!(r.freq_period_raw(), 1_000_000);
    assert_eq!(r.user_delay_raw(), -7);
    assert_eq!(r.flags(), 0x77);
    assert_eq!(checksum(&bytes[2..38]), (bytes[38], bytes[39]));
}

#[test]
fn cfg_val_set_frames_the_items() {
    let items = [
        CfgVal::new(CfgKey::UART1_BAUDRATE, 9600).unwrap(),
        CfgVal::new(CfgKey::UART1_ENABLED, 1).unwrap(),
    ];
    let mut out = Vec::new();
    CfgValSetBuilder {
        version: 0,
        layers: CFG_LAYER_SET_RAM,
        reserved1: 0,
        cfg_data: &items,
    }
    .extend_to(&mut out);
    let payload = [
        0x00, 0x01, 0x00, 0x00, 0x01, 0x00, 0x52, 0x40, 0x80, 0x25, 0x00, 0x00, 0x05, 0x00, 0x52,
        0x10, 0x01,
    ];
    assert_eq!(&out[0..6], &[0xb5, 0x62, 0x06, 0x8a, payload.len() as u8, 0]);
    assert_eq!(&out[6..6 + payload.len()], &payload);
    let (a, b) = checksum(&out[2..6 + payload.len()]);
    assert_eq!(&out[6 + payload.len()..], &[a, b]);
}

#[test]
fn cfg_val_get_request_frames_the_keys() {
    let keys = [CfgKey(CfgKey::UART1_BAUDRATE), CfgKey(CfgKey::WILDCARD_ALL)];
    let mut out = Vec::new();
    CfgValGetRequestBuilder {
        version: 0,
        layers: CfgLayerGet::Flash,
        position: 3,
        cfg_keys: &keys,
    }
    .extend_to(&mut out);
    assert_eq!(
        &out[0..18],
        &[
            0xb5, 0x62, 0x06, 0x8b, 12, 0, 0x00, 0x02, 0x03, 0x00, 0x01, 0x00, 0x52, 0x40, 0xff,
            0xff, 0xff, 0x7f
        ]
    );
    assert_eq!(out.len(), 20);
}

#[test]
fn cfg_val_get_response_is_recognised() {
    let payload = [0x01, 0x00, 0x00, 0x00, 0x05, 0x00, 0x52, 0x10, 0x01];
    match match_packet(ProtoVersion::V27, 0x06, 0x8b, &payload) {
        PacketRef::CfgValGetResponse(r) => {
            assert_eq!(r.version(), 1);
            assert_eq!(r.layers(), CfgLayerGet::Ram);
            assert_eq!(r.position(), 0);
            let mut it = r.cfg_data();
            let v = it.next().unwrap();
            assert_eq!(v.key(), CfgKey::UART1_ENABLED);
            assert_eq!(v.value_bytes(), &[1]);
            assert!(it.next().is_none());
        },
        _ => panic!("expected a CFG-VALGET response"),
    }
    // no room for an item: not a valid response
    assert!(matches!(
        match_packet(ProtoVersion::V27, 0x06, 0x8b, &payload[0..6]),
        PacketRef::Unknown(_)
    ));
}

#[test]
fn hnr_pvt_fix_type_and_position() {
    let mut payload = [0u8; 72];
    payload[16] = 3;
    payload[20..24].copy_from_slice(&(-1_234_567i32).to_le_bytes());
    assert!(HnrPvtRef::validate(&payload).is_ok());
    let r = HnrPvtRef(&payload);
    assert_eq!(r.fix_type(), GnssFixType::Fix3D);
    assert_eq!(r.lon_raw(), -1_234_567);
    assert!(HnrPvtRef::validate(&payload[..71]).is_err());
}

#[test]
fn mga_gal_time_builder_frame() {
    let mut b = MgaGalTimeBuilder {
        msg_type: 3,
        version: 0,
        reserved1: [0; 2],
        a0g_raw: -2,
        a1g_raw: 5,
        t0g_raw: 7,
        wn0g_raw: 9,
        reserved2: [0; 2],
    };
    b.version = 0;
    let bytes = b.into_packet_bytes();
    assert_eq!(
        &bytes[0..18],
        &[0xb5, 0x62, 0x13, 0x02, 12, 0, 3, 0, 0, 0, 0xfe, 0xff, 5, 0, 7, 9, 0, 0]
    );
}
