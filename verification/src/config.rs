//! Configuration settings for the BMI160 and their register encoding.
//!
//! Every logical setting is a closed enumeration with a fixed encoding. Two
//! register bytes hold the settings of each sensor: the first the output data
//! rate and the bandwidth (for the accelerometer also the undersampling flag),
//! the second the range. Settings are merged into the bytes as they were last
//! read from the device, so that bits that belong to no setting survive.

use vstd::prelude::*;

verus! {

/// Bandwidth field of the accelerometer configuration register (bits 4 to 6).
pub const ACCEL_BW_MASK: u8 = 0x70;

/// Output data rate field of the accelerometer configuration register (bits 0 to 3).
pub const ACCEL_ODR_MASK: u8 = 0x0F;

/// Undersampling flag of the accelerometer configuration register (bit 7).
pub const ACCEL_UNDERSAMPLING_MASK: u8 = 0x80;

/// Range field of the accelerometer range register (bits 0 to 3).
pub const ACCEL_RANGE_MASK: u8 = 0x0F;

/// Bandwidth field of the gyroscope configuration register (bits 4 and 5).
pub const GYRO_BW_MASK: u8 = 0x30;

/// Output data rate field of the gyroscope configuration register (bits 0 to 3).
pub const GYRO_ODR_MASK: u8 = 0x0F;

/// Range field of the gyroscope range register (bits 0 to 2).
pub const GYRO_RANGE_MASK: u8 = 0x07;

/// Position of the bandwidth field in either configuration register.
pub const BW_SHIFT: u8 = 4;

/// All bits of the accelerometer configuration register that a setting
/// owns: output data rate, bandwidth and undersampling flag together.
pub const ACCEL_CONFIG_MASK: u8 = 0xFF;

/// All bits of the gyroscope configuration register that a setting owns:
/// output data rate and bandwidth together.
pub const GYRO_CONFIG_MASK: u8 = 0x3F;

/// Power state of the accelerometer.
#[derive(Clone, Copy, Debug, PartialEq, Eq, Structural)]
pub enum AccelPowerMode {
    SuspendMode,
    NormalMode,
    LowPowerMode,
}

impl AccelPowerMode {
    /// The command byte that puts the accelerometer into this power state.
    pub open spec fn spec_bits(self) -> u8 {
        match self {
            AccelPowerMode::SuspendMode => 0x10,
            AccelPowerMode::NormalMode => 0x11,
            AccelPowerMode::LowPowerMode => 0x12,
        }
    }

    #[verifier::when_used_as_spec(spec_bits)]
    pub fn bits(self) -> (b: u8)
        ensures
            b == self.spec_bits(),
    {
        match self {
            AccelPowerMode::SuspendMode => 0x10,
            AccelPowerMode::NormalMode => 0x11,
            AccelPowerMode::LowPowerMode => 0x12,
        }
    }
}

/// Output data rate of the accelerometer.
#[allow(non_camel_case_types)]
#[derive(Clone, Copy, Debug, PartialEq, Eq, Structural)]
pub enum AccelOutputDataRate {
    OdrReserved,
    Odr0_78Hz,
    Odr1_56Hz,
    Odr3_12Hz,
    Odr6_25Hz,
    Odr12_5Hz,
    Odr25Hz,
    Odr50Hz,
    Odr100Hz,
    Odr200Hz,
    Odr400Hz,
    Odr800Hz,
    Odr1600Hz,
    OdrReserved0,
    OdrReserved1,
    OdrReserved2,
}

impl AccelOutputDataRate {
    /// The value of the four-bit output data rate field.
    pub open spec fn spec_bits(self) -> u8 {
        match self {
            AccelOutputDataRate::OdrReserved => 0x00,
            AccelOutputDataRate::Odr0_78Hz => 0x01,
            AccelOutputDataRate::Odr1_56Hz => 0x02,
            AccelOutputDataRate::Odr3_12Hz => 0x03,
            AccelOutputDataRate::Odr6_25Hz => 0x04,
            AccelOutputDataRate::Odr12_5Hz => 0x05,
            AccelOutputDataRate::Odr25Hz => 0x06,
            AccelOutputDataRate::Odr50Hz => 0x07,
            AccelOutputDataRate::Odr100Hz => 0x08,
            AccelOutputDataRate::Odr200Hz => 0x09,
            AccelOutputDataRate::Odr400Hz => 0x0A,
            AccelOutputDataRate::Odr800Hz => 0x0B,
            AccelOutputDataRate::Odr1600Hz => 0x0C,
            AccelOutputDataRate::OdrReserved0 => 0x0D,
            AccelOutputDataRate::OdrReserved1 => 0x0E,
            AccelOutputDataRate::OdrReserved2 => 0x0F,
        }
    }

    #[verifier::when_used_as_spec(spec_bits)]
    pub fn bits(self) -> (b: u8)
        ensures
            b == self.spec_bits(),
            b <= ACCEL_ODR_MASK,
    {
        match self {
            AccelOutputDataRate::OdrReserved => 0x00,
            AccelOutputDataRate::Odr0_78Hz => 0x01,
            AccelOutputDataRate::Odr1_56Hz => 0x02,
            AccelOutputDataRate::Odr3_12Hz => 0x03,
            AccelOutputDataRate::Odr6_25Hz => 0x04,
            AccelOutputDataRate::Odr12_5Hz => 0x05,
            AccelOutputDataRate::Odr25Hz => 0x06,
            AccelOutputDataRate::Odr50Hz => 0x07,
            AccelOutputDataRate::Odr100Hz => 0x08,
            AccelOutputDataRate::Odr200Hz => 0x09,
            AccelOutputDataRate::Odr400Hz => 0x0A,
            AccelOutputDataRate::Odr800Hz => 0x0B,
            AccelOutputDataRate::Odr1600Hz => 0x0C,
            AccelOutputDataRate::OdrReserved0 => 0x0D,
            AccelOutputDataRate::OdrReserved1 => 0x0E,
            AccelOutputDataRate::OdrReserved2 => 0x0F,
        }
    }
}

/// Full-scale range of the accelerometer.
#[derive(Clone, Copy, Debug, PartialEq, Eq, Structural)]
pub enum AccelRange {
    Range2G,
    Range4G,
    Range8G,
    Range16G,
}

impl AccelRange {
    /// The value of the four-bit range field.
    pub open spec fn spec_bits(self) -> u8 {
        match self {
            AccelRange::Range2G => 0x03,
            AccelRange::Range4G => 0x05,
            AccelRange::Range8G => 0x08,
            AccelRange::Range16G => 0x0C,
        }
    }

    #[verifier::when_used_as_spec(spec_bits)]
    pub fn bits(self) -> (b: u8)
        ensures
            b == self.spec_bits(),
            b <= ACCEL_RANGE_MASK,
    {
        match self {
            AccelRange::Range2G => 0x03,
            AccelRange::Range4G => 0x05,
            AccelRange::Range8G => 0x08,
            AccelRange::Range16G => 0x0C,
        }
    }
}

/// Filter bandwidth (oversampling and averaging) of the accelerometer.
#[derive(Clone, Copy, Debug, PartialEq, Eq, Structural)]
pub enum AccelBandwidth {
    BwOsr4Avg1,
    BwOsr2Avg2,
    BwNormalAvg4,
    BwResAvg8,
    BwResAvg16,
    BwResAvg32,
    BwResAvg64,
    BwResAvg128,
}

impl AccelBandwidth {
    /// The value of the three-bit bandwidth field, before it is shifted into place.
    pub open spec fn spec_bits(self) -> u8 {
        match self {
            AccelBandwidth::BwOsr4Avg1 => 0x00,
            AccelBandwidth::BwOsr2Avg2 => 0x01,
            AccelBandwidth::BwNormalAvg4 => 0x02,
            AccelBandwidth::BwResAvg8 => 0x03,
            AccelBandwidth::BwResAvg16 => 0x04,
            AccelBandwidth::BwResAvg32 => 0x05,
            AccelBandwidth::BwResAvg64 => 0x06,
            AccelBandwidth::BwResAvg128 => 0x07,
        }
    }

    #[verifier::when_used_as_spec(spec_bits)]
    pub fn bits(self) -> (b: u8)
        ensures
            b == self.spec_bits(),
            b <= 0x07,
    {
        match self {
            AccelBandwidth::BwOsr4Avg1 => 0x00,
            AccelBandwidth::BwOsr2Avg2 => 0x01,
            AccelBandwidth::BwNormalAvg4 => 0x02,
            AccelBandwidth::BwResAvg8 => 0x03,
            AccelBandwidth::BwResAvg16 => 0x04,
            AccelBandwidth::BwResAvg32 => 0x05,
            AccelBandwidth::BwResAvg64 => 0x06,
            AccelBandwidth::BwResAvg128 => 0x07,
        }
    }
}

/// Configuration data for the accelerometer.
#[derive(Clone, Copy, Debug, PartialEq, Eq, Structural)]
pub struct AccelConfig {
    /// Power mode.
    pub power: AccelPowerMode,
    /// Output data rate.
    pub odr: AccelOutputDataRate,
    /// Range.
    pub range: AccelRange,
    /// Bandwidth.
    pub bandwidth: AccelBandwidth,
}

impl AccelConfig {
    /// Whether the settings ask for undersampling: exactly in low power mode.
    pub open spec fn undersampling(self) -> bool {
        self.power == AccelPowerMode::LowPowerMode
    }

    /// The configuration register as the settings want it: output data rate
    /// in bits 0 to 3, bandwidth in bits 4 to 6, undersampling flag in bit 7.
    pub open spec fn config_bits(self) -> u8 {
        self.odr.spec_bits() | (self.bandwidth.spec_bits() << BW_SHIFT) | if self.undersampling() {
            ACCEL_UNDERSAMPLING_MASK
        } else {
            0u8
        }
    }

    /// The range field as the settings want it.
    pub open spec fn range_bits(self) -> u8 {
        self.range.spec_bits()
    }
}

/// Power state of the gyroscope.
#[derive(Clone, Copy, Debug, PartialEq, Eq, Structural)]
pub enum GyroPowerMode {
    SuspendMode,
    NormalMode,
    FastStartupMode,
}

impl GyroPowerMode {
    /// The command byte that puts the gyroscope into this power state.
    pub open spec fn spec_bits(self) -> u8 {
        match self {
            GyroPowerMode::SuspendMode => 0x14,
            GyroPowerMode::NormalMode => 0x15,
            GyroPowerMode::FastStartupMode => 0x17,
        }
    }

    #[verifier::when_used_as_spec(spec_bits)]
    pub fn bits(self) -> (b: u8)
        ensures
            b == self.spec_bits(),
    {
        match self {
            GyroPowerMode::SuspendMode => 0x14,
            GyroPowerMode::NormalMode => 0x15,
            GyroPowerMode::FastStartupMode => 0x17,
        }
    }
}

/// Output data rate of the gyroscope.
#[derive(Clone, Copy, Debug, PartialEq, Eq, Structural)]
pub enum GyroOutputDataRate {
    OdrReserved,
    Odr25Hz,
    Odr50Hz,
    Odr100Hz,
    Odr200Hz,
    Odr400Hz,
    Odr800Hz,
    Odr1600Hz,
    Odr3200Hz,
}

impl GyroOutputDataRate {
    /// The value of the four-bit output data rate field.
    pub open spec fn spec_bits(self) -> u8 {
        match self {
            GyroOutputDataRate::OdrReserved => 0x00,
            GyroOutputDataRate::Odr25Hz => 0x06,
            GyroOutputDataRate::Odr50Hz => 0x07,
            GyroOutputDataRate::Odr100Hz => 0x08,
            GyroOutputDataRate::Odr200Hz => 0x09,
            GyroOutputDataRate::Odr400Hz => 0x0A,
            GyroOutputDataRate::Odr800Hz => 0x0B,
            GyroOutputDataRate::Odr1600Hz => 0x0C,
            GyroOutputDataRate::Odr3200Hz => 0x0D,
        }
    }

    #[verifier::when_used_as_spec(spec_bits)]
    pub fn bits(self) -> (b: u8)
        ensures
            b == self.spec_bits(),
            b <= GYRO_ODR_MASK,
    {
        match self {
            GyroOutputDataRate::OdrReserved => 0x00,
            GyroOutputDataRate::Odr25Hz => 0x06,
            GyroOutputDataRate::Odr50Hz => 0x07,
            GyroOutputDataRate::Odr100Hz => 0x08,
            GyroOutputDataRate::Odr200Hz => 0x09,
            GyroOutputDataRate::Odr400Hz => 0x0A,
            GyroOutputDataRate::Odr800Hz => 0x0B,
            GyroOutputDataRate::Odr1600Hz => 0x0C,
            GyroOutputDataRate::Odr3200Hz => 0x0D,
        }
    }
}

/// Full-scale range of the gyroscope, in degrees per second.
#[derive(Clone, Copy, Debug, PartialEq, Eq, Structural)]
pub enum GyroRange {
    Range2000Dps,
    Range1000Dps,
    Range500Dps,
    Range250Dps,
    Range125Dps,
}

impl GyroRange {
    /// The value of the three-bit range field.
    pub open spec fn spec_bits(self) -> u8 {
        match self {
            GyroRange::Range2000Dps => 0x00,
            GyroRange::Range1000Dps => 0x01,
            GyroRange::Range500Dps => 0x02,
            GyroRange::Range250Dps => 0x03,
            GyroRange::Range125Dps => 0x04,
        }
    }

    #[verifier::when_used_as_spec(spec_bits)]
    pub fn bits(self) -> (b: u8)
        ensures
            b == self.spec_bits(),
            b <= GYRO_RANGE_MASK,
    {
        match self {
            GyroRange::Range2000Dps => 0x00,
            GyroRange::Range1000Dps => 0x01,
            GyroRange::Range500Dps => 0x02,
            GyroRange::Range250Dps => 0x03,
            GyroRange::Range125Dps => 0x04,
        }
    }
}

/// Filter bandwidth of the gyroscope.
#[derive(Clone, Copy, Debug, PartialEq, Eq, Structural)]
pub enum GyroBandwidth {
    BwOsr4Mode,
    BwOsr2MOde,
    BwNormalMode,
}

impl GyroBandwidth {
    /// The value of the two-bit bandwidth field, before it is shifted into place.
    pub open spec fn spec_bits(self) -> u8 {
        match self {
            GyroBandwidth::BwOsr4Mode => 0x00,
            GyroBandwidth::BwOsr2MOde => 0x01,
            GyroBandwidth::BwNormalMode => 0x02,
        }
    }

    #[verifier::when_used_as_spec(spec_bits)]
    pub fn bits(self) -> (b: u8)
        ensures
            b == self.spec_bits(),
            b <= 0x03,
    {
        match self {
            GyroBandwidth::BwOsr4Mode => 0x00,
            GyroBandwidth::BwOsr2MOde => 0x01,
            GyroBandwidth::BwNormalMode => 0x02,
        }
    }
}

/// Configuration data for the gyroscope.
#[derive(Clone, Copy, Debug, PartialEq, Eq, Structural)]
pub struct GyroConfig {
    /// Power mode.
    pub power: GyroPowerMode,
    /// Output data rate.
    pub odr: GyroOutputDataRate,
    /// Range.
    pub range: GyroRange,
    /// Bandwidth.
    pub bandwidth: GyroBandwidth,
}

impl GyroConfig {
    /// The settings' share of the configuration register: output data rate in
    /// bits 0 to 3, bandwidth in bits 4 and 5.
    pub open spec fn config_bits(self) -> u8 {
        self.odr.spec_bits() | (self.bandwidth.spec_bits() << BW_SHIFT)
    }

    /// The range field as the settings want it.
    pub open spec fn range_bits(self) -> u8 {
        self.range.spec_bits()
    }
}

/// The settings of both sensors.
#[derive(Clone, Copy, Debug, PartialEq, Eq, Structural)]
pub struct BMI160Config {
    pub accel_config: AccelConfig,
    pub gyro_config: GyroConfig,
}

/// `current` with the bits under `mask` replaced by the bits of `field`
/// under `mask`, and every other bit as it was.
pub open spec fn merge_bits(current: u8, mask: u8, field: u8) -> u8 {
    (current & !mask) | (field & mask)
}

/// The settings the device is given when the caller has no wishes: both
/// sensors suspended at 100 Hz, the accelerometer at 2 g with the normal
/// filter, the gyroscope at 2000 degrees per second with the normal filter.
pub fn default() -> (config: BMI160Config)
    ensures
        config.accel_config.power == AccelPowerMode::SuspendMode,
        config.accel_config.odr == AccelOutputDataRate::Odr100Hz,
        config.accel_config.range == AccelRange::Range2G,
        config.accel_config.bandwidth == AccelBandwidth::BwNormalAvg4,
        config.gyro_config.power == GyroPowerMode::SuspendMode,
        config.gyro_config.odr == GyroOutputDataRate::Odr100Hz,
        config.gyro_config.range == GyroRange::Range2000Dps,
        config.gyro_config.bandwidth == GyroBandwidth::BwNormalMode,
{
    BMI160Config {
        accel_config: AccelConfig {
            power: AccelPowerMode::SuspendMode,
            odr: AccelOutputDataRate::Odr100Hz,
            range: AccelRange::Range2G,
            bandwidth: AccelBandwidth::BwNormalAvg4,
        },
        gyro_config: GyroConfig {
            power: GyroPowerMode::SuspendMode,
            odr: GyroOutputDataRate::Odr100Hz,
            range: GyroRange::Range2000Dps,
            bandwidth: GyroBandwidth::BwNormalMode,
        },
    }
}

impl BMI160Config {
    /// The two accelerometer registers after the settings are merged into
    /// `current`, the bytes last read from them: configuration, then range.
    pub open spec fn accel_registers(self, current: Seq<u8>) -> Seq<u8> {
        seq![
            merge_bits(current[0], ACCEL_CONFIG_MASK, self.accel_config.config_bits()),
            merge_bits(current[1], ACCEL_RANGE_MASK, self.accel_config.range_bits()),
        ]
    }

    /// The two gyroscope registers after the settings are merged into
    /// `current`, the bytes last read from them: configuration, then range.
    pub open spec fn gyro_registers(self, current: Seq<u8>) -> Seq<u8> {
        seq![
            merge_bits(current[0], GYRO_CONFIG_MASK, self.gyro_config.config_bits()),
            merge_bits(current[1], GYRO_RANGE_MASK, self.gyro_config.range_bits()),
        ]
    }

    /// Merges the accelerometer settings into the register bytes `buf`, as
    /// read from the configuration and the range register.
    ///
    /// The fields are written one after the other: output data rate,
    /// bandwidth, undersampling flag, range. The flag is set in low power
    /// mode and cleared in every other mode. Bits 4 to 7 of the range register
    /// belong to no setting and are handed back as they came.
    pub fn apply_accel_config(&self, buf: [u8; 2]) -> (out: [u8; 2])
        ensures
            out@ == self.accel_registers(buf@),
            out[0] & ACCEL_ODR_MASK == self.accel_config.odr.spec_bits(),
            (out[0] & ACCEL_BW_MASK) >> BW_SHIFT == self.accel_config.bandwidth.spec_bits(),
            out[0] & ACCEL_UNDERSAMPLING_MASK == if self.accel_config.undersampling() {
                ACCEL_UNDERSAMPLING_MASK
            } else {
                0u8
            },
            out[1] & ACCEL_RANGE_MASK == self.accel_config.range.spec_bits(),
            out[0] & !ACCEL_CONFIG_MASK == buf[0] & !ACCEL_CONFIG_MASK,
            out[1] & !ACCEL_RANGE_MASK == buf[1] & !ACCEL_RANGE_MASK,
    {
        let odr = self.accel_config.odr.bits();
        let bw = self.accel_config.bandwidth.bits();
        let range = self.accel_config.range.bits();
        let low_power = self.accel_config.power == AccelPowerMode::LowPowerMode;
        let current = buf[0];
        // Output data rate
        let with_odr = (current & !ACCEL_ODR_MASK) | (odr & ACCEL_ODR_MASK);
        // Bandwidth
        let with_bw = (with_odr & !ACCEL_BW_MASK) | ((bw << BW_SHIFT) & ACCEL_BW_MASK);
        // Undersampling
        let seg1 = if low_power {
            (with_bw & !ACCEL_UNDERSAMPLING_MASK) | ACCEL_UNDERSAMPLING_MASK
        } else if with_bw & ACCEL_UNDERSAMPLING_MASK != 0 {
            with_bw & !ACCEL_UNDERSAMPLING_MASK
        } else {
            with_bw
        };
        // Range
        let seg2 = (buf[1] & !ACCEL_RANGE_MASK) | (range & ACCEL_RANGE_MASK);
        proof {
            let flag = if low_power {
                ACCEL_UNDERSAMPLING_MASK
            } else {
                0u8
            };
            let previous = buf[1];
            assert(seg1 == (current & !0xFFu8) | ((odr | (bw << 4u8) | flag) & 0xFFu8)
                && seg1 & 0x0Fu8 == odr
                && (seg1 & 0x70u8) >> 4u8 == bw
                && seg1 & 0x80u8 == flag
                && seg1 & !0xFFu8 == current & !0xFFu8) by (bit_vector)
                requires
                    odr <= 0x0Fu8,
                    bw <= 0x07u8,
                    flag == 0x80u8 || flag == 0u8,
                    with_odr == (current & !0x0Fu8) | (odr & 0x0Fu8),
                    with_bw == (with_odr & !0x70u8) | ((bw << 4u8) & 0x70u8),
                    seg1 == if flag == 0x80u8 {
                        (with_bw & !0x80u8) | 0x80u8
                    } else if with_bw & 0x80u8 != 0u8 {
                        with_bw & !0x80u8
                    } else {
                        with_bw
                    },
            ;
            assert(seg2 & 0x0Fu8 == range && seg2 & !0x0Fu8 == previous & !0x0Fu8)
                by (bit_vector)
                requires
                    range <= 0x0Fu8,
                    seg2 == (previous & !0x0Fu8) | (range & 0x0Fu8),
            ;
        }
        let out = [seg1, seg2];
        assert(out@ =~= self.accel_registers(buf@));
        out
    }

    /// Merges the gyroscope settings into the register bytes `buf`, as read
    /// from the configuration and the range register.
    ///
    /// The fields are written one after the other: output data rate,
    /// bandwidth, range. Bits 6 and 7 of the configuration register and bits 3
    /// to 7 of the range register belong to no setting and are handed back as
    /// they came.
    pub fn apply_gyro_config(&self, buf: [u8; 2]) -> (out: [u8; 2])
        ensures
            out@ == self.gyro_registers(buf@),
            out[0] & GYRO_ODR_MASK == self.gyro_config.odr.spec_bits(),
            (out[0] & GYRO_BW_MASK) >> BW_SHIFT == self.gyro_config.bandwidth.spec_bits(),
            out[1] & GYRO_RANGE_MASK == self.gyro_config.range.spec_bits(),
            out[0] & !GYRO_CONFIG_MASK == buf[0] & !GYRO_CONFIG_MASK,
            out[1] & !GYRO_RANGE_MASK == buf[1] & !GYRO_RANGE_MASK,
    {
        let odr = self.gyro_config.odr.bits();
        let bw = self.gyro_config.bandwidth.bits();
        let range = self.gyro_config.range.bits();
        let current = buf[0];
        // Output data rate
        let with_odr = (current & !GYRO_ODR_MASK) | (odr & GYRO_ODR_MASK);
        // Bandwidth
        let seg1 = (with_odr & !GYRO_BW_MASK) | ((bw << BW_SHIFT) & GYRO_BW_MASK);
        // Range
        let seg2 = (buf[1] & !GYRO_RANGE_MASK) | (range & GYRO_RANGE_MASK);
        proof {
            let previous = buf[1];
            assert(seg1 == (current & !0x3Fu8) | ((odr | (bw << 4u8)) & 0x3Fu8)
                && seg1 & 0x0Fu8 == odr
                && (seg1 & 0x30u8) >> 4u8 == bw
                && seg1 & !0x3Fu8 == current & !0x3Fu8) by (bit_vector)
                requires
                    odr <= 0x0Fu8,
                    bw <= 0x03u8,
                    with_odr == (current & !0x0Fu8) | (odr & 0x0Fu8),
                    seg1 == (with_odr & !0x30u8) | ((bw << 4u8) & 0x30u8),
            ;
            assert(seg2 & 0x07u8 == range && seg2 & !0x07u8 == previous & !0x07u8)
                by (bit_vector)
                requires
                    range <= 0x07u8,
                    seg2 == (previous & !0x07u8) | (range & 0x07u8),
            ;
        }
        let out = [seg1, seg2];
        assert(out@ =~= self.gyro_registers(buf@));
        out
    }
}

/// The configuration masks are the unions of the field masks, and the fields
/// of one register share no bit.
pub proof fn lemma_masks_partition()
    ensures
        ACCEL_CONFIG_MASK == ACCEL_ODR_MASK | ACCEL_BW_MASK | ACCEL_UNDERSAMPLING_MASK,
        ACCEL_ODR_MASK & ACCEL_BW_MASK == 0,
        ACCEL_ODR_MASK & ACCEL_UNDERSAMPLING_MASK == 0,
        ACCEL_BW_MASK & ACCEL_UNDERSAMPLING_MASK == 0,
        GYRO_CONFIG_MASK == GYRO_ODR_MASK | GYRO_BW_MASK,
        GYRO_ODR_MASK & GYRO_BW_MASK == 0,
{
    assert(0xFFu8 == 0x0Fu8 | 0x70u8 | 0x80u8) by (bit_vector);
    assert(0x0Fu8 & 0x70u8 == 0) by (bit_vector);
    assert(0x0Fu8 & 0x80u8 == 0) by (bit_vector);
    assert(0x70u8 & 0x80u8 == 0) by (bit_vector);
    assert(0x3Fu8 == 0x0Fu8 | 0x30u8) by (bit_vector);
    assert(0x0Fu8 & 0x30u8 == 0) by (bit_vector);
}

/// Merging a field into a byte that already holds it changes nothing.
pub proof fn lemma_merge_bits_idempotent(current: u8, mask: u8, field: u8)
    ensures
        merge_bits(merge_bits(current, mask, field), mask, field) == merge_bits(
            current,
            mask,
            field,
        ),
{
    assert(((((current & !mask) | (field & mask)) & !mask) | (field & mask)) == ((current & !mask)
        | (field & mask))) by (bit_vector);
}

/// Merging leaves every bit outside the mask as it was, and puts the field's
/// bits under the mask.
pub proof fn lemma_merge_bits_fields(current: u8, mask: u8, field: u8)
    ensures
        merge_bits(current, mask, field) & !mask == current & !mask,
        merge_bits(current, mask, field) & mask == field & mask,
{
    assert(((current & !mask) | (field & mask)) & !mask == current & !mask) by (bit_vector);
    assert(((current & !mask) | (field & mask)) & mask == field & mask) by (bit_vector);
}

/// Applying the accelerometer settings to registers that already hold them
/// gives the same registers again.
pub proof fn lemma_apply_accel_config_idempotent(config: BMI160Config, buf: [u8; 2])
    ensures
        config.accel_registers(config.accel_registers(buf@)) == config.accel_registers(buf@),
{
    lemma_merge_bits_idempotent(buf[0], ACCEL_CONFIG_MASK, config.accel_config.config_bits());
    lemma_merge_bits_idempotent(buf[1], ACCEL_RANGE_MASK, config.accel_config.range_bits());
    assert(config.accel_registers(config.accel_registers(buf@)) =~= config.accel_registers(buf@));
}

/// Applying the gyroscope settings to registers that already hold them gives
/// the same registers again.
pub proof fn lemma_apply_gyro_config_idempotent(config: BMI160Config, buf: [u8; 2])
    ensures
        config.gyro_registers(config.gyro_registers(buf@)) == config.gyro_registers(buf@),
{
    lemma_merge_bits_idempotent(buf[0], GYRO_CONFIG_MASK, config.gyro_config.config_bits());
    lemma_merge_bits_idempotent(buf[1], GYRO_RANGE_MASK, config.gyro_config.range_bits());
    assert(config.gyro_registers(config.gyro_registers(buf@)) =~= config.gyro_registers(buf@));
}

} // verus!
