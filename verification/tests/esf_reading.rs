use ublox::ubx_packets::packets::esf_meas::{EsfMeasData, SensorReading, SensorScale};
use ublox::ubx_packets::packets::esf_status::{EsfInitStatus2, EsfSensorType, EsfStatusImuInit};

fn data(data_type: EsfSensorType, data_field: i32) -> EsfMeasData {
    EsfMeasData { data_type, data_field }
}

#[test]
fn esf_reading_by_sensor_kind() {
    assert_eq!(data(EsfSensorType::SpeedTick, 42).reading(), SensorReading::Tick(42));
    assert_eq!(
        data(EsfSensorType::RearLeftWheelTicks, 7).reading(),
        SensorReading::Tick(7)
    );
    assert_eq!(
        data(EsfSensorType::Speed, 1000).reading(),
        SensorReading::Scaled(1000, SensorScale::MilliMetresPerSecond)
    );
    assert_eq!(
        data(EsfSensorType::GyroX, 4096).reading(),
        SensorReading::Scaled(4096, SensorScale::GyroRate)
    );
    assert_eq!(
        data(EsfSensorType::AccZ, 1024).reading(),
        SensorReading::Scaled(1024, SensorScale::Acceleration)
    );
    assert_eq!(
        data(EsfSensorType::GyroTemp, 2500).reading(),
        SensorReading::Scaled(2500, SensorScale::CentiDegrees)
    );
    assert_eq!(data(EsfSensorType::NoSensor, 3).reading(), SensorReading::Zero);
}

#[test]
fn esf_reading_negative_fields_keep_magnitude_bits() {
    // -5: the low 23 bits of its two's complement are 0x7ffffb
    assert_eq!(data(EsfSensorType::SpeedTick, -5).reading(), SensorReading::Tick(-0x7f_fffb));
    assert_eq!(
        data(EsfSensorType::GyroY, -5).reading(),
        SensorReading::Scaled(0x7f_fffb, SensorScale::GyroRate)
    );
}

#[test]
fn esf_init_status2_imu_status_is_a_two_bit_field() {
    assert_eq!(EsfInitStatus2(0).imu_init_status(), EsfStatusImuInit::Off);
    assert_eq!(EsfInitStatus2(1).imu_init_status(), EsfStatusImuInit::Initializing);
    assert_eq!(EsfInitStatus2(2).imu_init_status(), EsfStatusImuInit::Initialized);
    assert_eq!(EsfInitStatus2(3).imu_init_status(), EsfStatusImuInit::Invalid);
    assert_eq!(EsfInitStatus2(0xfd).imu_init_status_raw(), 1);
}
