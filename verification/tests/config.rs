use bmi160::config::{
    AccelBandwidth, AccelConfig, AccelOutputDataRate, AccelPowerMode, AccelRange, BMI160Config,
    GyroBandwidth, GyroConfig, GyroOutputDataRate, GyroPowerMode, GyroRange, ACCEL_BW_MASK,
    ACCEL_CONFIG_MASK, ACCEL_ODR_MASK, ACCEL_RANGE_MASK, ACCEL_UNDERSAMPLING_MASK, BW_SHIFT,
    GYRO_BW_MASK, GYRO_CONFIG_MASK, GYRO_ODR_MASK, GYRO_RANGE_MASK,
};

const ACCEL_POWERS: [AccelPowerMode; 3] =
    [AccelPowerMode::SuspendMode, AccelPowerMode::NormalMode, AccelPowerMode::LowPowerMode];

const ACCEL_ODRS: [AccelOutputDataRate; 16] = [
    AccelOutputDataRate::OdrReserved,
    AccelOutputDataRate::Odr0_78Hz,
    AccelOutputDataRate::Odr1_56Hz,
    AccelOutputDataRate::Odr3_12Hz,
    AccelOutputDataRate::Odr6_25Hz,
    AccelOutputDataRate::Odr12_5Hz,
    AccelOutputDataRate::Odr25Hz,
    AccelOutputDataRate::Odr50Hz,
    AccelOutputDataRate::Odr100Hz,
    AccelOutputDataRate::Odr200Hz,
    AccelOutputDataRate::Odr400Hz,
    AccelOutputDataRate::Odr800Hz,
    AccelOutputDataRate::Odr1600Hz,
    AccelOutputDataRate::OdrReserved0,
    AccelOutputDataRate::OdrReserved1,
    AccelOutputDataRate::OdrReserved2,
];

const ACCEL_RANGES: [AccelRange; 4] =
    [AccelRange::Range2G, AccelRange::Range4G, AccelRange::Range8G, AccelRange::Range16G];

const ACCEL_BANDWIDTHS: [AccelBandwidth; 8] = [
    AccelBandwidth::BwOsr4Avg1,
    AccelBandwidth::BwOsr2Avg2,
    AccelBandwidth::BwNormalAvg4,
    AccelBandwidth::BwResAvg8,
    AccelBandwidth::BwResAvg16,
    AccelBandwidth::BwResAvg32,
    AccelBandwidth::BwResAvg64,
    AccelBandwidth::BwResAvg128,
];

const GYRO_POWERS: [GyroPowerMode; 3] =
    [GyroPowerMode::SuspendMode, GyroPowerMode::NormalMode, GyroPowerMode::FastStartupMode];

const GYRO_ODRS: [GyroOutputDataRate; 9] = [
    GyroOutputDataRate::OdrReserved,
    GyroOutputDataRate::Odr25Hz,
    GyroOutputDataRate::Odr50Hz,
    GyroOutputDataRate::Odr100Hz,
    GyroOutputDataRate::Odr200Hz,
    GyroOutputDataRate::Odr400Hz,
    GyroOutputDataRate::Odr800Hz,
    GyroOutputDataRate::Odr1600Hz,
    GyroOutputDataRate::Odr3200Hz,
];

const GYRO_RANGES: [GyroRange; 5] = [
    GyroRange::Range2000Dps,
    GyroRange::Range1000Dps,
    GyroRange::Range500Dps,
    GyroRange::Range250Dps,
    GyroRange::Range125Dps,
];

const GYRO_BANDWIDTHS: [GyroBandwidth; 3] =
    [GyroBandwidth::BwOsr4Mode, GyroBandwidth::BwOsr2MOde, GyroBandwidth::BwNormalMode];

fn with_accel(accel_config: AccelConfig) -> BMI160Config {
    BMI160Config { accel_config, gyro_config: bmi160::config::default().gyro_config }
}

fn with_gyro(gyro_config: GyroConfig) -> BMI160Config {
    BMI160Config { accel_config: bmi160::config::default().accel_config, gyro_config }
}

fn all_accel_configs() -> Vec<AccelConfig> {
    let mut all = Vec::new();
    for power in ACCEL_POWERS {
        for odr in ACCEL_ODRS {
            for range in ACCEL_RANGES {
                for bandwidth in ACCEL_BANDWIDTHS {
                    all.push(AccelConfig { power, odr, range, bandwidth });
                }
            }
        }
    }
    all
}

fn all_gyro_configs() -> Vec<GyroConfig> {
    let mut all = Vec::new();
    for power in GYRO_POWERS {
        for odr in GYRO_ODRS {
            for range in GYRO_RANGES {
                for bandwidth in GYRO_BANDWIDTHS {
                    all.push(GyroConfig { power, odr, range, bandwidth });
                }
            }
        }
    }
    all
}

#[test]
fn masks_have_their_values() {
    assert_eq!(ACCEL_ODR_MASK, 0x0F);
    assert_eq!(ACCEL_BW_MASK, 0x70);
    assert_eq!(ACCEL_UNDERSAMPLING_MASK, 0x80);
    assert_eq!(ACCEL_RANGE_MASK, 0x0F);
    assert_eq!(GYRO_ODR_MASK, 0x0F);
    assert_eq!(GYRO_BW_MASK, 0x30);
    assert_eq!(GYRO_RANGE_MASK, 0x07);
    assert_eq!(BW_SHIFT, 4);
    assert_eq!(ACCEL_CONFIG_MASK, ACCEL_ODR_MASK | ACCEL_BW_MASK | ACCEL_UNDERSAMPLING_MASK);
    assert_eq!(GYRO_CONFIG_MASK, GYRO_ODR_MASK | GYRO_BW_MASK);
}

#[test]
fn accel_power_mode_commands() {
    assert_eq!(AccelPowerMode::SuspendMode.bits(), 0x10);
    assert_eq!(AccelPowerMode::NormalMode.bits(), 0x11);
    assert_eq!(AccelPowerMode::LowPowerMode.bits(), 0x12);
}

#[test]
fn gyro_power_mode_commands() {
    assert_eq!(GyroPowerMode::SuspendMode.bits(), 0x14);
    assert_eq!(GyroPowerMode::NormalMode.bits(), 0x15);
    assert_eq!(GyroPowerMode::FastStartupMode.bits(), 0x17);
}

#[test]
fn accel_output_data_rates_count_up_from_zero() {
    for (i, odr) in ACCEL_ODRS.iter().enumerate() {
        assert_eq!(odr.bits() as usize, i);
    }
}

#[test]
fn accel_range_encodings() {
    assert_eq!(AccelRange::Range2G.bits(), 0x03);
    assert_eq!(AccelRange::Range4G.bits(), 0x05);
    assert_eq!(AccelRange::Range8G.bits(), 0x08);
    assert_eq!(AccelRange::Range16G.bits(), 0x0C);
}

#[test]
fn accel_bandwidths_count_up_from_zero() {
    for (i, bandwidth) in ACCEL_BANDWIDTHS.iter().enumerate() {
        assert_eq!(bandwidth.bits() as usize, i);
    }
}

#[test]
fn gyro_output_data_rate_encodings() {
    assert_eq!(GyroOutputDataRate::OdrReserved.bits(), 0x00);
    assert_eq!(GyroOutputDataRate::Odr25Hz.bits(), 0x06);
    assert_eq!(GyroOutputDataRate::Odr50Hz.bits(), 0x07);
    assert_eq!(GyroOutputDataRate::Odr100Hz.bits(), 0x08);
    assert_eq!(GyroOutputDataRate::Odr200Hz.bits(), 0x09);
    assert_eq!(GyroOutputDataRate::Odr400Hz.bits(), 0x0A);
    assert_eq!(GyroOutputDataRate::Odr800Hz.bits(), 0x0B);
    assert_eq!(GyroOutputDataRate::Odr1600Hz.bits(), 0x0C);
    assert_eq!(GyroOutputDataRate::Odr3200Hz.bits(), 0x0D);
}

#[test]
fn gyro_ranges_count_up_from_zero() {
    for (i, range) in GYRO_RANGES.iter().enumerate() {
        assert_eq!(range.bits() as usize, i);
    }
}

#[test]
fn gyro_bandwidths_count_up_from_zero() {
    for (i, bandwidth) in GYRO_BANDWIDTHS.iter().enumerate() {
        assert_eq!(bandwidth.bits() as usize, i);
    }
}

#[test]
fn default_settings() {
    let config = bmi160::config::default();
    assert_eq!(
        config.accel_config,
        AccelConfig {
            power: AccelPowerMode::SuspendMode,
            odr: AccelOutputDataRate::Odr100Hz,
            range: AccelRange::Range2G,
            bandwidth: AccelBandwidth::BwNormalAvg4,
        }
    );
    assert_eq!(
        config.gyro_config,
        GyroConfig {
            power: GyroPowerMode::SuspendMode,
            odr: GyroOutputDataRate::Odr100Hz,
            range: GyroRange::Range2000Dps,
            bandwidth: GyroBandwidth::BwNormalMode,
        }
    );
}

#[test]
fn default_accel_settings_on_cleared_registers() {
    let out = bmi160::config::default().apply_accel_config([0x00, 0x00]);
    assert_eq!(out, [0x28, 0x03]);
}

#[test]
fn default_gyro_settings_on_cleared_registers() {
    let out = bmi160::config::default().apply_gyro_config([0x00, 0x00]);
    assert_eq!(out, [0x28, 0x00]);
}

#[test]
fn accel_settings_on_set_registers() {
    let config = with_accel(AccelConfig {
        power: AccelPowerMode::NormalMode,
        odr: AccelOutputDataRate::Odr1600Hz,
        range: AccelRange::Range16G,
        bandwidth: AccelBandwidth::BwResAvg128,
    });
    assert_eq!(config.apply_accel_config([0xFF, 0xFF]), [0x7C, 0xFC]);
}

#[test]
fn accel_settings_in_low_power_mode() {
    let config = with_accel(AccelConfig {
        power: AccelPowerMode::LowPowerMode,
        odr: AccelOutputDataRate::Odr50Hz,
        range: AccelRange::Range4G,
        bandwidth: AccelBandwidth::BwOsr4Avg1,
    });
    assert_eq!(config.apply_accel_config([0x00, 0xA0]), [0x87, 0xA5]);
}

#[test]
fn gyro_settings_keep_reserved_bits() {
    let config = with_gyro(GyroConfig {
        power: GyroPowerMode::NormalMode,
        odr: GyroOutputDataRate::Odr3200Hz,
        range: GyroRange::Range125Dps,
        bandwidth: GyroBandwidth::BwOsr2MOde,
    });
    assert_eq!(config.apply_gyro_config([0xFF, 0xFF]), [0xDD, 0xFC]);
    assert_eq!(config.apply_gyro_config([0x00, 0x00]), [0x1D, 0x04]);
}

#[test]
fn power_mode_of_one_sensor_does_not_reach_the_other() {
    for power in GYRO_POWERS {
        let mut config = bmi160::config::default();
        config.gyro_config.power = power;
        assert_eq!(config.apply_accel_config([0xFF, 0xFF]), [0x28, 0xF3]);
        assert_eq!(config.apply_gyro_config([0xFF, 0xFF]), [0xE8, 0xF8]);
    }
}

#[test]
fn accel_settings_leave_unowned_bits_alone() {
    for accel in all_accel_configs() {
        let config = with_accel(accel);
        for current in 0..=255u8 {
            let out = config.apply_accel_config([current, !current]);
            assert_eq!(out[0] & !ACCEL_CONFIG_MASK, current & !ACCEL_CONFIG_MASK);
            assert_eq!(out[1] & !ACCEL_RANGE_MASK, !current & !ACCEL_RANGE_MASK);
        }
    }
}

#[test]
fn gyro_settings_leave_unowned_bits_alone() {
    for gyro in all_gyro_configs() {
        let config = with_gyro(gyro);
        for current in 0..=255u8 {
            let out = config.apply_gyro_config([current, !current]);
            assert_eq!(out[0] & !GYRO_CONFIG_MASK, current & !GYRO_CONFIG_MASK);
            assert_eq!(out[1] & !GYRO_RANGE_MASK, !current & !GYRO_RANGE_MASK);
        }
    }
}

#[test]
fn accel_settings_read_back_from_the_registers() {
    for accel in all_accel_configs() {
        let config = with_accel(accel);
        for current in 0..=255u8 {
            let out = config.apply_accel_config([current, current]);
            assert_eq!(out[0] & ACCEL_ODR_MASK, accel.odr.bits());
            assert_eq!((out[0] & ACCEL_BW_MASK) >> BW_SHIFT, accel.bandwidth.bits());
            assert_eq!(out[1] & ACCEL_RANGE_MASK, accel.range.bits());
        }
    }
}

#[test]
fn gyro_settings_read_back_from_the_registers() {
    for gyro in all_gyro_configs() {
        let config = with_gyro(gyro);
        for current in 0..=255u8 {
            let out = config.apply_gyro_config([current, current]);
            assert_eq!(out[0] & GYRO_ODR_MASK, gyro.odr.bits());
            assert_eq!((out[0] & GYRO_BW_MASK) >> BW_SHIFT, gyro.bandwidth.bits());
            assert_eq!(out[1] & GYRO_RANGE_MASK, gyro.range.bits());
        }
    }
}

#[test]
fn applying_accel_settings_twice_is_applying_them_once() {
    for accel in all_accel_configs() {
        let config = with_accel(accel);
        for current in 0..=255u8 {
            let once = config.apply_accel_config([current, !current]);
            assert_eq!(config.apply_accel_config(once), once);
        }
    }
}

#[test]
fn applying_gyro_settings_twice_is_applying_them_once() {
    for gyro in all_gyro_configs() {
        let config = with_gyro(gyro);
        for current in 0..=255u8 {
            let once = config.apply_gyro_config([current, !current]);
            assert_eq!(config.apply_gyro_config(once), once);
        }
    }
}

#[test]
fn undersampling_is_set_exactly_in_low_power_mode() {
    for accel in all_accel_configs() {
        let config = with_accel(accel);
        for current in 0..=255u8 {
            let out = config.apply_accel_config([current, 0]);
            if accel.power == AccelPowerMode::LowPowerMode {
                assert_eq!(out[0] & ACCEL_UNDERSAMPLING_MASK, 0x80);
            } else {
                assert_eq!(out[0] & ACCEL_UNDERSAMPLING_MASK, 0x00);
            }
        }
    }
}

#[test]
fn undersampling_is_cleared_on_leaving_low_power_mode() {
    let mut config = bmi160::config::default();
    config.accel_config.power = AccelPowerMode::LowPowerMode;
    let low_power = config.apply_accel_config([0x00, 0x00]);
    assert_eq!(low_power, [0xA8, 0x03]);
    config.accel_config.power = AccelPowerMode::NormalMode;
    assert_eq!(config.apply_accel_config(low_power), [0x28, 0x03]);
}
