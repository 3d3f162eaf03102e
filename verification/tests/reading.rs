use bmi160::bus::Request;
use bmi160::i2c::{
    decode_axis, decode_counter, BMI160Reading, ConfigFault, BMI160, SENSOR_DATA_LEN,
};

fn sensor() -> BMI160 {
    BMI160::new(bmi160::config::default()).0
}

#[test]
fn sample_buffer_decodes() {
    let buf: [u8; 15] = [
        0x01, 0x02, 0x03, 0x04, 0x05, 0x06, 0x07, 0x08, 0x09, 0x0A, 0x0B, 0x0C, 0x0D, 0x0E, 0x0F,
    ];
    let reading = sensor().get_sensor_data::<()>(Ok(buf)).unwrap();
    assert_eq!(reading.gyro_x, 0x0201);
    assert_eq!(reading.gyro_x, 513);
    assert_eq!(reading.accel_x, 0x0807);
    assert_eq!(reading.accel_x, 2055);
    assert_eq!(reading.time, 0x0F0E0D);
    assert_eq!(
        reading,
        BMI160Reading {
            gyro_x: 0x0201,
            gyro_y: 0x0403,
            gyro_z: 0x0605,
            accel_x: 0x0807,
            accel_y: 0x0A09,
            accel_z: 0x0C0B,
            time: 0x0F0E0D,
        }
    );
}

#[test]
fn sample_of_zeros_decodes_to_zeros() {
    let reading = sensor().get_sensor_data::<()>(Ok([0u8; 15])).unwrap();
    assert_eq!(
        reading,
        BMI160Reading {
            gyro_x: 0,
            gyro_y: 0,
            gyro_z: 0,
            accel_x: 0,
            accel_y: 0,
            accel_z: 0,
            time: 0,
        }
    );
}

#[test]
fn sample_with_negative_axes_decodes() {
    let buf: [u8; 15] = [
        0xFF, 0xFF, 0x00, 0x80, 0xFF, 0x7F, 0xFE, 0xFF, 0x18, 0xFC, 0x00, 0x00, 0xFF, 0xFF, 0xFF,
    ];
    let reading = sensor().get_sensor_data::<()>(Ok(buf)).unwrap();
    assert_eq!(
        reading,
        BMI160Reading {
            gyro_x: -1,
            gyro_y: -32768,
            gyro_z: 32767,
            accel_x: -2,
            accel_y: -1000,
            accel_z: 0,
            time: 0x00FF_FFFF,
        }
    );
}

#[test]
fn failed_sample_read_hands_the_error_on() {
    let result = sensor().get_sensor_data::<&str>(Err("nack"));
    assert_eq!(result, Err("nack"));
}

#[test]
fn sample_is_one_read_of_fifteen_registers() {
    assert_eq!(SENSOR_DATA_LEN, 15);
    assert_eq!(
        sensor().sensor_data_request(),
        Request::Read { addr: 0x68, reg: 0x0C, len: 15 }
    );
}

#[test]
fn axis_is_little_endian_twos_complement() {
    assert_eq!(decode_axis(0x00, 0x00), 0);
    assert_eq!(decode_axis(0x01, 0x00), 1);
    assert_eq!(decode_axis(0x00, 0x01), 256);
    assert_eq!(decode_axis(0x34, 0x12), 0x1234);
    assert_eq!(decode_axis(0xFF, 0x7F), i16::MAX);
    assert_eq!(decode_axis(0x00, 0x80), i16::MIN);
    assert_eq!(decode_axis(0xFF, 0xFF), -1);
}

#[test]
fn axis_agrees_with_the_bytes_of_every_value() {
    for value in i16::MIN..=i16::MAX {
        let bytes = value.to_le_bytes();
        assert_eq!(decode_axis(bytes[0], bytes[1]), value);
    }
}

#[test]
fn counter_is_little_endian() {
    assert_eq!(decode_counter(0x00, 0x00, 0x00), 0);
    assert_eq!(decode_counter(0x01, 0x00, 0x00), 1);
    assert_eq!(decode_counter(0x00, 0x01, 0x00), 256);
    assert_eq!(decode_counter(0x00, 0x00, 0x01), 65536);
    assert_eq!(decode_counter(0x0D, 0x0E, 0x0F), 0x0F0E0D);
    assert_eq!(decode_counter(0xFF, 0xFF, 0xFF), 0x00FF_FFFF);
}

#[test]
fn error_status_decodes_to_fault() {
    let sensor = sensor();
    assert_eq!(sensor.check_config(0x02), Some(ConfigFault::AccelOdrBandwidth));
    assert_eq!(sensor.check_config(0x02).unwrap().code(), 1);
    assert_eq!(sensor.check_config(0x0E), Some(ConfigFault::Prefilter));
    assert_eq!(sensor.check_config(0x0E).unwrap().code(), 7);
    assert_eq!(sensor.check_config(0x00), None);
}

#[test]
fn error_status_decodes_every_fault() {
    let sensor = sensor();
    assert_eq!(sensor.check_config(0x04), Some(ConfigFault::GyroOdrBandwidth));
    assert_eq!(sensor.check_config(0x06), Some(ConfigFault::PrefilterInterrupt));
    assert_eq!(ConfigFault::AccelOdrBandwidth.code(), 1);
    assert_eq!(ConfigFault::GyroOdrBandwidth.code(), 2);
    assert_eq!(ConfigFault::PrefilterInterrupt.code(), 3);
    assert_eq!(ConfigFault::Prefilter.code(), 7);
}

#[test]
fn error_status_looks_at_bits_one_to_four_only() {
    let sensor = sensor();
    // Bit 0 and bits 5 to 7 belong to other reports.
    assert_eq!(sensor.check_config(0x03), Some(ConfigFault::AccelOdrBandwidth));
    assert_eq!(sensor.check_config(0xE2), Some(ConfigFault::AccelOdrBandwidth));
    assert_eq!(sensor.check_config(0xEF), Some(ConfigFault::Prefilter));
    assert_eq!(sensor.check_config(0xE1), None);
}

#[test]
fn error_status_without_a_named_code_is_no_fault() {
    let sensor = sensor();
    for status in 0..=255u8 {
        let code = (status >> 1) & 0x0F;
        let fault = sensor.check_config(status);
        match code {
            1 | 2 | 3 | 7 => assert_eq!(fault.unwrap().code(), code),
            _ => assert_eq!(fault, None),
        }
    }
}

#[test]
fn chip_identity() {
    assert!(BMI160::identifies(0xD1));
    assert!(!BMI160::identifies(0x00));
    assert!(!BMI160::identifies(0xD0));
}
