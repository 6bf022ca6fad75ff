use ublox::ubx_packets::packets::aid::AidIniBuilder;
use ublox::ubx_packets::packets::aiding::{ScaledPosition, UtcTime};
use ublox::ubx_packets::packets::enums::{CfgNav5DynModel, CfgNav5FixMode, CfgNav5UtcStandard};
use ublox::ubx_packets::packets::fix_status::{FixStatusInfo, MapMatchingStatus};
use ublox::ubx_packets::packets::mga_ini::{MgaIniPosBuilder, MgaIniTimeUtcBuilder};
use ublox::ubx_packets::writer::{MemWriter, UbxPacketCreator};

fn sample_time() -> UtcTime {
    UtcTime {
        year: 2024,
        month: 3,
        day: 17,
        hour: 12,
        minute: 34,
        second: 56,
        nanosecond: 789,
    }
}

#[test]
fn aid_ini_position_sets_fields_and_flags() {
    let pos = ScaledPosition {
        lat: 473_977_420,
        lon: 85_455_940,
        alt_cm: 48_800,
    };
    let b = AidIniBuilder::default().set_position(pos);
    assert_eq!(b.ecef_x_or_lat, 473_977_420);
    assert_eq!(b.ecef_y_or_lon, 85_455_940);
    assert_eq!(b.ecef_z_or_alt, 48_800);
    assert_eq!(b.flags, 0x21);
    let bytes = b.into_packet_bytes();
    assert_eq!(&bytes[0..6], &[0xb5, 0x62, 0x0b, 0x01, 48, 0]);
    assert_eq!(&bytes[6..10], &473_977_420i32.to_le_bytes());
    assert_eq!(&bytes[54 - 4..54], &0x21u32.to_le_bytes());
}

#[test]
fn aid_ini_time_packs_year_month_and_hms() {
    let b = AidIniBuilder::default().set_time(sample_time());
    // (2024 - 2000) * 100 + month0
    assert_eq!(b.week_or_ym, 2402);
    assert_eq!(b.tow_or_hms, 123456);
    assert_eq!(b.tow_ns, 789);
    assert_eq!(b.flags, 0x402);
    let both = AidIniBuilder::default()
        .set_position(ScaledPosition { lat: 1, lon: 2, alt_cm: 3 })
        .set_time(sample_time());
    assert_eq!(both.flags, 0x423);
    assert_eq!(both.ecef_x_or_lat, 1);
}

#[test]
fn mga_ini_pos_sets_type_and_position() {
    let b = MgaIniPosBuilder::default()
        .set_position(ScaledPosition { lat: -10, lon: 20, alt_cm: -30 })
        .set_accuracy(500);
    assert_eq!(b.msg_type, 0x01);
    assert_eq!(b.version, 0x00);
    assert_eq!((b.lat, b.lon, b.alt), (-10, 20, -30));
    assert_eq!(b.pos_acc, 500);
    let bytes = b.into_packet_bytes();
    assert_eq!(&bytes[0..6], &[0xb5, 0x62, 0x13, 0x40, 20, 0]);
    assert_eq!(bytes[6], 0x01);
}

#[test]
fn mga_ini_time_utc_sets_fields() {
    let b = MgaIniTimeUtcBuilder::default().set_time(sample_time());
    assert_eq!(b.msg_type, 0x10);
    assert_eq!(b.version, 0);
    assert_eq!(b.leap_secs, -128);
    assert_eq!(b.source, 0);
    assert_eq!(b.year, 2024);
    assert_eq!((b.month, b.day, b.hour, b.minute, b.second), (3, 17, 12, 34, 56));
    assert_eq!(b.ns, 789);
    let b = b.set_source(2, true).set_accuracy(3, 4000).set_leap_seconds(18);
    assert_eq!(b.source, 2);
    assert_eq!(b.trusted_source, 1);
    assert_eq!((b.t_acc_s, b.t_acc_ns), (3, 4000));
    assert_eq!(b.leap_secs, 18);
    let b = b.set_source(1, false);
    assert_eq!(b.trusted_source, 0);
}

#[test]
fn fix_status_info_bits() {
    let s = FixStatusInfo::from(0b0100_0001);
    assert!(s.has_pr_prr_correction());
    assert_eq!(s.map_matching(), MapMatchingStatus::Valid);
    assert_eq!(FixStatusInfo::from(0).map_matching(), MapMatchingStatus::NoMapMatching);
    assert_eq!(FixStatusInfo::from(0x80).map_matching(), MapMatchingStatus::Used);
    assert_eq!(FixStatusInfo::from(0xc2).map_matching(), MapMatchingStatus::Dr);
    assert!(!FixStatusInfo::from(0xc2).has_pr_prr_correction());
}

#[test]
fn cfg_nav5_enums_raw_values() {
    assert_eq!(CfgNav5DynModel::from_unchecked(8), CfgNav5DynModel::AirborneWith4gAcceleration);
    assert_eq!(CfgNav5DynModel::Bike.into_raw(), 10);
    assert!(!CfgNav5DynModel::is_valid(1));
    assert_eq!(CfgNav5FixMode::from_unchecked(2), CfgNav5FixMode::Only3D);
    assert_eq!(CfgNav5UtcStandard::UtcChina.into_raw(), 7);
    assert_eq!(CfgNav5DynModel::default(), CfgNav5DynModel::AirborneWith4gAcceleration);
    assert_eq!(CfgNav5FixMode::default(), CfgNav5FixMode::Auto2D3D);
    assert_eq!(CfgNav5UtcStandard::default(), CfgNav5UtcStandard::Automatic);
}

#[test]
fn create_packet_appends_the_frame_to_a_vec() {
    let expected = MgaIniPosBuilder::default().set_accuracy(5).into_packet_bytes();
    let mut out = vec![1u8];
    MgaIniPosBuilder::default()
        .set_accuracy(5)
        .create_packet(&mut out)
        .unwrap();
    assert_eq!(out[0], 1);
    assert_eq!(&out[1..], &expected[..]);
}

#[test]
fn vec_mem_writer_appends() {
    let mut out: Vec<u8> = vec![9];
    out.reserve_allocate(4).unwrap();
    MemWriter::write(&mut out, &[1, 2, 3]).unwrap();
    assert_eq!(out, vec![9, 1, 2, 3]);
}

#[test]
fn utc_time_valid_checks_ranges() {
    assert!(sample_time().valid());
    let mut t = sample_time();
    t.month = 13;
    assert!(!t.valid());
    let mut t = sample_time();
    t.second = 60;
    assert!(!t.valid());
}
