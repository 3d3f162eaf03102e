//! The device controller: which bus operations bring the BMI160 up, in which
//! order, and how its sample registers decode.
//!
//! Bringing the device up is a fixed walk through a list of [`Stage`]s. At
//! each stage the controller names one [`Request`]; the caller has it
//! performed and hands the [`Reply`] to [`BMI160::advance`], which says what
//! comes next. The first failure of the bus ends the walk.
//!
//! Neither a chip identity that is not a BMI160's nor a configuration that
//! the device finds fault with stops the walk. Both are left to the caller to
//! judge: the identity is in the reply that the caller hands over, to be held
//! against [`BMI160::identifies`], and the fault comes with [`Step::Ready`].

use vstd::prelude::*;
use crate::bus::{Reply, Request};
use crate::config::BMI160Config;

verus! {

/// Bus address of the device when its address pin is low.
pub const I2C_ADDRESS_PRIMARY: u8 = 0x68;

/// Bus address of the device when its address pin is high.
pub const I2C_ADDRESS_SECONDARY: u8 = 0x69;

/// What the chip identity register of a BMI160 holds.
pub const BMI160_CHIP_ID: u8 = 0xD1;

/// Width of the fault code in the error status register, once shifted down.
pub const ERR_REG_MASK: u8 = 0x0F;

/// Milliseconds to wait after a soft reset.
pub const RESET_SETTLE_MS: u8 = 2;

/// Milliseconds to wait after the accelerometer's power mode was set.
pub const ACCEL_SETTLE_MS: u8 = 40;

/// Milliseconds to wait after the gyroscope's power mode was set.
pub const GYRO_SETTLE_MS: u8 = 80;

/// Number of registers in one sample: six axes of two bytes and a counter of
/// three.
pub const SENSOR_DATA_LEN: usize = 15;

/// The registers of the device that the controller uses.
#[derive(Clone, Copy, Debug, PartialEq, Eq, Structural)]
pub enum Register {
    ChipId,
    Error,
    Command,
    GyroData,
    AccelData,
    AccelConfig,
    AccelRange,
    GyroConfig,
    GyroRange,
}

impl Register {
    /// The register's address on the device.
    pub open spec fn spec_addr(&self) -> u8 {
        match self {
            Register::ChipId => 0x00,
            Register::Error => 0x02,
            Register::Command => 0x7E,
            Register::GyroData => 0x0C,
            Register::AccelData => 0x12,
            Register::AccelConfig => 0x40,
            Register::AccelRange => 0x41,
            Register::GyroConfig => 0x42,
            Register::GyroRange => 0x43,
        }
    }

    #[verifier::when_used_as_spec(spec_addr)]
    pub fn addr(&self) -> (a: u8)
        ensures
            a == self.spec_addr(),
    {
        match self {
            Register::ChipId => 0x00,
            Register::Error => 0x02,
            Register::Command => 0x7E,
            Register::GyroData => 0x0C,
            Register::AccelData => 0x12,
            Register::AccelConfig => 0x40,
            Register::AccelRange => 0x41,
            Register::GyroConfig => 0x42,
            Register::GyroRange => 0x43,
        }
    }
}

/// The commands that the controller writes to the command register, besides
/// the power modes.
#[derive(Clone, Copy, Debug, PartialEq, Eq, Structural)]
pub enum Command {
    SoftReset,
}

impl Command {
    /// The command's byte.
    pub open spec fn spec_val(&self) -> u8 {
        match self {
            Command::SoftReset => 0xB6,
        }
    }

    #[verifier::when_used_as_spec(spec_val)]
    pub fn val(&self) -> (v: u8)
        ensures
            v == self.spec_val(),
    {
        match self {
            Command::SoftReset => 0xB6,
        }
    }
}

/// One sample of the device: raw counts of the six axes and the sensor time.
#[derive(Clone, Copy, Debug, PartialEq, Eq, Structural)]
pub struct BMI160Reading {
    pub accel_x: i16,
    pub accel_y: i16,
    pub accel_z: i16,
    pub gyro_x: i16,
    pub gyro_y: i16,
    pub gyro_z: i16,
    pub time: u32,
}

/// The number that the two bytes `low` and `high` hold as a little-endian
/// 16-bit integer in two's complement.
pub open spec fn axis_value(low: u8, high: u8) -> int {
    let raw = low as int + 256 * (high as int);
    if raw < 32768 {
        raw
    } else {
        raw - 65536
    }
}

/// The number that three bytes hold as a little-endian 24-bit unsigned
/// integer, lowest byte first.
pub open spec fn counter_value(low: u8, mid: u8, high: u8) -> int {
    low as int + 256 * (mid as int) + 65536 * (high as int)
}

/// The reading that the fifteen sample registers `buf` hold: gyroscope x, y
/// and z, then accelerometer x, y and z, then the sensor time.
pub open spec fn reading_of(buf: Seq<u8>) -> BMI160Reading {
    BMI160Reading {
        gyro_x: axis_value(buf[0], buf[1]) as i16,
        gyro_y: axis_value(buf[2], buf[3]) as i16,
        gyro_z: axis_value(buf[4], buf[5]) as i16,
        accel_x: axis_value(buf[6], buf[7]) as i16,
        accel_y: axis_value(buf[8], buf[9]) as i16,
        accel_z: axis_value(buf[10], buf[11]) as i16,
        time: counter_value(buf[12], buf[13], buf[14]) as u32,
    }
}

/// Decodes one axis from its two registers, low byte first.
pub fn decode_axis(low: u8, high: u8) -> (value: i16)
    ensures
        value == axis_value(low, high),
{
    let raw: u16 = ((high as u16) << 8) | (low as u16);
    let value: i16 = #[verifier::truncate] (raw as i16);
    proof {
        assert(raw == low as u16 + 256 * (high as u16)) by (bit_vector)
            requires
                raw == ((high as u16) << 8) | (low as u16),
        ;
        assert(value as int == if raw < 32768 {
            raw as int
        } else {
            raw as int - 65536
        }) by (bit_vector)
            requires
                value == raw as i16,
        ;
    }
    value
}

/// Decodes the sensor time from its three registers, low byte first.
pub fn decode_counter(low: u8, mid: u8, high: u8) -> (value: u32)
    ensures
        value == counter_value(low, mid, high),
        value < 0x100_0000,
{
    let value: u32 = ((high as u32) << 16) | ((mid as u32) << 8) | (low as u32);
    proof {
        assert(value == low as u32 + 256 * (mid as u32) + 65536 * (high as u32)) by (bit_vector)
            requires
                value == ((high as u32) << 16) | ((mid as u32) << 8) | (low as u32),
        ;
    }
    value
}

/// A configuration that the device refuses, as its error status register
/// reports it.
#[derive(Clone, Copy, Debug, PartialEq, Eq, Structural)]
pub enum ConfigFault {
    /// Output data rate and bandwidth of the accelerometer do not go together.
    AccelOdrBandwidth,
    /// Output data rate and bandwidth of the gyroscope do not go together.
    GyroOdrBandwidth,
    /// The interrupts are set to use pre-filtered data that is not there.
    PrefilterInterrupt,
    /// Pre-filtered data is asked for that is not there.
    Prefilter,
}

impl ConfigFault {
    /// The fault's code in the error status register.
    pub open spec fn spec_code(&self) -> u8 {
        match self {
            ConfigFault::AccelOdrBandwidth => 1,
            ConfigFault::GyroOdrBandwidth => 2,
            ConfigFault::PrefilterInterrupt => 3,
            ConfigFault::Prefilter => 7,
        }
    }

    #[verifier::when_used_as_spec(spec_code)]
    pub fn code(&self) -> (c: u8)
        ensures
            c == self.spec_code(),
    {
        match self {
            ConfigFault::AccelOdrBandwidth => 1,
            ConfigFault::GyroOdrBandwidth => 2,
            ConfigFault::PrefilterInterrupt => 3,
            ConfigFault::Prefilter => 7,
        }
    }
}

/// Bits 1 to 4 of the error status register, as a number.
pub open spec fn fault_code(status: u8) -> int {
    (status as int / 2) % 16
}

/// The fault that the error status register reports, if its code names one.
pub open spec fn fault_of(status: u8) -> Option<ConfigFault> {
    let code = fault_code(status);
    if code == 1 {
        Some(ConfigFault::AccelOdrBandwidth)
    } else if code == 2 {
        Some(ConfigFault::GyroOdrBandwidth)
    } else if code == 3 {
        Some(ConfigFault::PrefilterInterrupt)
    } else if code == 7 {
        Some(ConfigFault::Prefilter)
    } else {
        None
    }
}

/// Where the controller stands while it brings the device up: the bus
/// operation that is under way.
///
/// The stages are listed in the order in which they are passed. The first
/// three belong to initialisation alone; configuring begins at
/// `AccelRegisters`.
#[derive(Clone, Copy, Debug, PartialEq, Eq, Structural)]
pub enum Stage {
    /// Reading the chip identity.
    ChipId,
    /// Writing the soft reset command.
    SoftReset,
    /// Waiting for the reset to settle.
    ResetSettle,
    /// Reading the accelerometer's configuration and range registers.
    AccelRegisters,
    /// Writing `config` to the accelerometer's configuration register;
    /// `range` is kept for the range register.
    AccelConfig { config: u8, range: u8 },
    /// Writing `range` to the accelerometer's range register.
    AccelRange { range: u8 },
    /// Reading the gyroscope's configuration and range registers.
    GyroRegisters,
    /// Writing `config` to the gyroscope's configuration register; `range`
    /// is kept for the range register.
    GyroConfig { config: u8, range: u8 },
    /// Writing `range` to the gyroscope's range register.
    GyroRange { range: u8 },
    /// Writing the accelerometer's power mode command.
    AccelPower,
    /// Waiting for the accelerometer's power mode to settle.
    AccelSettle,
    /// Writing the gyroscope's power mode command.
    GyroPower,
    /// Waiting for the gyroscope's power mode to settle.
    GyroSettle,
    /// Reading the error status.
    ErrorStatus,
}

impl Stage {
    /// The stage's place in the walk, counted from zero.
    pub open spec fn position(self) -> nat {
        match self {
            Stage::ChipId => 0,
            Stage::SoftReset => 1,
            Stage::ResetSettle => 2,
            Stage::AccelRegisters => 3,
            Stage::AccelConfig { .. } => 4,
            Stage::AccelRange { .. } => 5,
            Stage::GyroRegisters => 6,
            Stage::GyroConfig { .. } => 7,
            Stage::GyroRange { .. } => 8,
            Stage::AccelPower => 9,
            Stage::AccelSettle => 10,
            Stage::GyroPower => 11,
            Stage::GyroSettle => 12,
            Stage::ErrorStatus => 13,
        }
    }
}

/// What follows a stage, once the transport has reported on its request.
#[derive(Debug, PartialEq, Eq)]
pub enum Step<E> {
    /// The request went through; this stage is next.
    Next(Stage),
    /// The last request went through and the device is up. With it comes the
    /// fault that the device reports of its configuration, if any.
    Ready(Option<ConfigFault>),
    /// The bus failed, and nothing more is to be asked of it. The error is
    /// the transport's, unchanged.
    Abort(E),
    /// The reply reports on some other request than the stage's: the stage
    /// still waits for its own.
    Unanswered,
}

/// The controller of one BMI160: where it is on the bus, and how it is to
/// be configured.
#[derive(Clone, Copy, Debug, PartialEq, Eq, Structural)]
pub struct BMI160 {
    pub addr: u8,
    pub config: BMI160Config,
}

impl BMI160 {
    /// The address is one of the two that the device can have.
    pub open spec fn wf(&self) -> bool {
        self.addr == I2C_ADDRESS_PRIMARY || self.addr == I2C_ADDRESS_SECONDARY
    }

    /// The operation that `stage` asks of the transport.
    pub open spec fn spec_request(&self, stage: Stage) -> Request {
        match stage {
            Stage::ChipId => Request::Read {
                addr: self.addr,
                reg: Register::ChipId.spec_addr(),
                len: 1,
            },
            Stage::SoftReset => Request::Write {
                addr: self.addr,
                reg: Register::Command.spec_addr(),
                value: Command::SoftReset.spec_val(),
            },
            Stage::ResetSettle => Request::Delay { ms: RESET_SETTLE_MS },
            Stage::AccelRegisters => Request::Read {
                addr: self.addr,
                reg: Register::AccelConfig.spec_addr(),
                len: 2,
            },
            Stage::AccelConfig { config, range } => Request::Write {
                addr: self.addr,
                reg: Register::AccelConfig.spec_addr(),
                value: config,
            },
            Stage::AccelRange { range } => Request::Write {
                addr: self.addr,
                reg: Register::AccelRange.spec_addr(),
                value: range,
            },
            Stage::GyroRegisters => Request::Read {
                addr: self.addr,
                reg: Register::GyroConfig.spec_addr(),
                len: 2,
            },
            Stage::GyroConfig { config, range } => Request::Write {
                addr: self.addr,
                reg: Register::GyroConfig.spec_addr(),
                value: config,
            },
            Stage::GyroRange { range } => Request::Write {
                addr: self.addr,
                reg: Register::GyroRange.spec_addr(),
                value: range,
            },
            Stage::AccelPower => Request::Write {
                addr: self.addr,
                reg: Register::Command.spec_addr(),
                value: self.config.accel_config.power.spec_bits(),
            },
            Stage::AccelSettle => Request::Delay { ms: ACCEL_SETTLE_MS },
            Stage::GyroPower => Request::Write {
                addr: self.addr,
                reg: Register::Command.spec_addr(),
                value: self.config.gyro_config.power.spec_bits(),
            },
            Stage::GyroSettle => Request::Delay { ms: GYRO_SETTLE_MS },
            Stage::ErrorStatus => Request::Read {
                addr: self.addr,
                reg: Register::Error.spec_addr(),
                len: 1,
            },
        }
    }

    /// The stage that follows `stage` when its request went through and, if
    /// it was a read, returned `data`. Nothing follows the last stage.
    pub open spec fn successor(&self, stage: Stage, data: Seq<u8>) -> Option<Stage> {
        match stage {
            Stage::ChipId => Some(Stage::SoftReset),
            Stage::SoftReset => Some(Stage::ResetSettle),
            Stage::ResetSettle => Some(Stage::AccelRegisters),
            Stage::AccelRegisters => Some(
                Stage::AccelConfig {
                    config: self.config.accel_registers(data)[0],
                    range: self.config.accel_registers(data)[1],
                },
            ),
            Stage::AccelConfig { config, range } => Some(Stage::AccelRange { range }),
            Stage::AccelRange { range } => Some(Stage::GyroRegisters),
            Stage::GyroRegisters => Some(
                Stage::GyroConfig {
                    config: self.config.gyro_registers(data)[0],
                    range: self.config.gyro_registers(data)[1],
                },
            ),
            Stage::GyroConfig { config, range } => Some(Stage::GyroRange { range }),
            Stage::GyroRange { range } => Some(Stage::AccelPower),
            Stage::AccelPower => Some(Stage::AccelSettle),
            Stage::AccelSettle => Some(Stage::GyroPower),
            Stage::GyroPower => Some(Stage::GyroSettle),
            Stage::GyroSettle => Some(Stage::ErrorStatus),
            Stage::ErrorStatus => None,
        }
    }

    /// What follows `stage` on `reply`. A failure of the bus aborts, whatever
    /// the stage. A reply that does not answer the stage's request leaves the
    /// stage waiting. Otherwise the next stage follows, or, after the last,
    /// the device is ready and the error status that was read says whether it
    /// found fault with its configuration.
    pub open spec fn spec_advance<E>(&self, stage: Stage, reply: Reply<E>) -> Step<E> {
        match reply {
            Reply::Failed(e) => Step::Abort(e),
            _ => if !reply.answers(self.spec_request(stage)) {
                Step::Unanswered
            } else {
                match self.successor(stage, reply.data()) {
                    Some(next) => Step::Next(next),
                    None => Step::Ready(fault_of(reply.data()[0])),
                }
            },
        }
    }

    /// Creates the controller of the device at the primary address, and names
    /// the stage at which its initialisation begins: the chip identity is
    /// read, the device is reset and given time to settle, and then it is
    /// configured as [`BMI160::configure`] says.
    pub fn new(config: BMI160Config) -> (started: (BMI160, Stage))
        ensures
            started.0.addr == I2C_ADDRESS_PRIMARY,
            started.0.config == config,
            started.0.wf(),
            started.1 == Stage::ChipId,
    {
        (BMI160 { addr: I2C_ADDRESS_PRIMARY, config }, Stage::ChipId)
    }

    /// Names the stage at which configuring begins: the settings of the
    /// accelerometer and then of the gyroscope are merged into their
    /// registers, the power mode of the accelerometer and then of the
    /// gyroscope is set, each with its settle time, and the error status is
    /// read.
    pub fn configure(&self) -> (stage: Stage)
        ensures
            stage == Stage::AccelRegisters,
    {
        Stage::AccelRegisters
    }

    /// Whether `chip_id`, as read from the chip identity register, is that of
    /// a BMI160.
    pub fn identifies(chip_id: u8) -> (b: bool)
        ensures
            b == (chip_id == BMI160_CHIP_ID),
    {
        chip_id == BMI160_CHIP_ID
    }

    /// The fault that the error status register reports, if any: bits 1 to 4
    /// hold its code.
    pub fn check_config(&self, status: u8) -> (fault: Option<ConfigFault>)
        ensures
            fault == fault_of(status),
    {
        let data = (status >> 1) & ERR_REG_MASK;
        proof {
            assert(data == (status / 2) % 16) by (bit_vector)
                requires
                    data == (status >> 1) & 0x0Fu8,
            ;
        }
        if data == 1 {
            Some(ConfigFault::AccelOdrBandwidth)
        } else if data == 2 {
            Some(ConfigFault::GyroOdrBandwidth)
        } else if data == 3 {
            Some(ConfigFault::PrefilterInterrupt)
        } else if data == 7 {
            Some(ConfigFault::Prefilter)
        } else {
            None
        }
    }

    /// The two operations that set the gyroscope's power mode: the command,
    /// and the wait that lets the device leave suspend, whatever mode it was
    /// in before.
    pub fn set_gyro_power_mode(&self) -> (requests: (Request, Request))
        ensures
            requests.0 == self.spec_request(Stage::GyroPower),
            requests.1 == self.spec_request(Stage::GyroSettle),
    {
        (
            Request::Write {
                addr: self.addr,
                reg: Register::Command.addr(),
                value: self.config.gyro_config.power.bits(),
            },
            Request::Delay { ms: GYRO_SETTLE_MS },
        )
    }

    /// The two operations that set the accelerometer's power mode: the
    /// command, and the wait that lets the device leave suspend, whatever
    /// mode it was in before.
    pub fn set_accel_power_mode(&self) -> (requests: (Request, Request))
        ensures
            requests.0 == self.spec_request(Stage::AccelPower),
            requests.1 == self.spec_request(Stage::AccelSettle),
    {
        (
            Request::Write {
                addr: self.addr,
                reg: Register::Command.addr(),
                value: self.config.accel_config.power.bits(),
            },
            Request::Delay { ms: ACCEL_SETTLE_MS },
        )
    }

    /// From the accelerometer's registers as they were read, the stage that
    /// writes them back with the settings merged in: the configuration
    /// register first, the range register after it.
    pub fn config_accelerometer(&self, buf: [u8; 2]) -> (stage: Stage)
        ensures
            Some(stage) == self.successor(Stage::AccelRegisters, buf@),
    {
        let updated = self.config.apply_accel_config(buf);
        Stage::AccelConfig { config: updated[0], range: updated[1] }
    }

    /// From the gyroscope's registers as they were read, the stage that
    /// writes them back with the settings merged in: the configuration
    /// register first, the range register after it.
    pub fn config_gyroscope(&self, buf: [u8; 2]) -> (stage: Stage)
        ensures
            Some(stage) == self.successor(Stage::GyroRegisters, buf@),
    {
        let updated = self.config.apply_gyro_config(buf);
        Stage::GyroConfig { config: updated[0], range: updated[1] }
    }

    /// The operation that `stage` asks of the transport.
    #[verifier::when_used_as_spec(spec_request)]
    pub fn request(&self, stage: Stage) -> (request: Request)
        ensures
            request == self.spec_request(stage),
    {
        match stage {
            Stage::ChipId => Request::Read {
                addr: self.addr,
                reg: Register::ChipId.addr(),
                len: 1,
            },
            Stage::SoftReset => Request::Write {
                addr: self.addr,
                reg: Register::Command.addr(),
                value: Command::SoftReset.val(),
            },
            Stage::ResetSettle => Request::Delay { ms: RESET_SETTLE_MS },
            Stage::AccelRegisters => Request::Read {
                addr: self.addr,
                reg: Register::AccelConfig.addr(),
                len: 2,
            },
            Stage::AccelConfig { config, range: _ } => Request::Write {
                addr: self.addr,
                reg: Register::AccelConfig.addr(),
                value: config,
            },
            Stage::AccelRange { range } => Request::Write {
                addr: self.addr,
                reg: Register::AccelRange.addr(),
                value: range,
            },
            Stage::GyroRegisters => Request::Read {
                addr: self.addr,
                reg: Register::GyroConfig.addr(),
                len: 2,
            },
            Stage::GyroConfig { config, range: _ } => Request::Write {
                addr: self.addr,
                reg: Register::GyroConfig.addr(),
                value: config,
            },
            Stage::GyroRange { range } => Request::Write {
                addr: self.addr,
                reg: Register::GyroRange.addr(),
                value: range,
            },
            Stage::AccelPower => self.set_accel_power_mode().0,
            Stage::AccelSettle => self.set_accel_power_mode().1,
            Stage::GyroPower => self.set_gyro_power_mode().0,
            Stage::GyroSettle => self.set_gyro_power_mode().1,
            Stage::ErrorStatus => Request::Read {
                addr: self.addr,
                reg: Register::Error.addr(),
                len: 1,
            },
        }
    }

    /// Decides what follows `stage`, now that the transport has reported
    /// `reply` of the stage's request.
    pub fn advance<E>(&self, stage: Stage, reply: Reply<E>) -> (step: Step<E>)
        ensures
            step == self.spec_advance(stage, reply),
    {
        match reply {
            Reply::Failed(e) => Step::Abort(e),
            Reply::Done => match stage {
                Stage::SoftReset => Step::Next(Stage::ResetSettle),
                Stage::ResetSettle => Step::Next(self.configure()),
                Stage::AccelConfig { config: _, range } => Step::Next(Stage::AccelRange { range }),
                Stage::AccelRange { range: _ } => Step::Next(Stage::GyroRegisters),
                Stage::GyroConfig { config: _, range } => Step::Next(Stage::GyroRange { range }),
                Stage::GyroRange { range: _ } => Step::Next(Stage::AccelPower),
                Stage::AccelPower => Step::Next(Stage::AccelSettle),
                Stage::AccelSettle => Step::Next(Stage::GyroPower),
                Stage::GyroPower => Step::Next(Stage::GyroSettle),
                Stage::GyroSettle => Step::Next(Stage::ErrorStatus),
                _ => Step::Unanswered,
            },
            Reply::Data(bytes) => match stage {
                Stage::ChipId => if bytes.len() == 1 {
                    Step::Next(Stage::SoftReset)
                } else {
                    Step::Unanswered
                },
                Stage::AccelRegisters => if bytes.len() == 2 {
                    let buf = [bytes[0], bytes[1]];
                    assert(buf@ =~= bytes@);
                    Step::Next(self.config_accelerometer(buf))
                } else {
                    Step::Unanswered
                },
                Stage::GyroRegisters => if bytes.len() == 2 {
                    let buf = [bytes[0], bytes[1]];
                    assert(buf@ =~= bytes@);
                    Step::Next(self.config_gyroscope(buf))
                } else {
                    Step::Unanswered
                },
                Stage::ErrorStatus => if bytes.len() == 1 {
                    Step::Ready(self.check_config(bytes[0]))
                } else {
                    Step::Unanswered
                },
                _ => Step::Unanswered,
            },
        }
    }

    /// The one operation that fetches a sample: a read of the fifteen
    /// registers from the gyroscope's data onwards.
    pub fn sensor_data_request(&self) -> (request: Request)
        ensures
            request == (Request::Read {
                addr: self.addr,
                reg: Register::GyroData.spec_addr(),
                len: SENSOR_DATA_LEN,
            }),
    {
        Request::Read { addr: self.addr, reg: Register::GyroData.addr(), len: SENSOR_DATA_LEN }
    }

    /// Decodes the sample that the read of [`BMI160::sensor_data_request`]
    /// brought, or hands on the error with which it failed. The values are
    /// raw counts: no range or unit is applied.
    pub fn get_sensor_data<E>(&self, read: Result<[u8; 15], E>) -> (result: Result<
        BMI160Reading,
        E,
    >)
        ensures
            match read {
                Ok(buf) => result == Ok::<BMI160Reading, E>(reading_of(buf@)),
                Err(e) => result == Err::<BMI160Reading, E>(e),
            },
    {
        match read {
            Ok(buf) => Ok(
                BMI160Reading {
                    accel_x: decode_axis(buf[6], buf[7]),
                    accel_y: decode_axis(buf[8], buf[9]),
                    accel_z: decode_axis(buf[10], buf[11]),
                    gyro_x: decode_axis(buf[0], buf[1]),
                    gyro_y: decode_axis(buf[2], buf[3]),
                    gyro_z: decode_axis(buf[4], buf[5]),
                    time: decode_counter(buf[12], buf[13], buf[14]),
                },
            ),
            Err(e) => Err(e),
        }
    }
}

} // verus!
