//! Whole walks: what the controller asks of the bus from its first request
//! to its last, and where it ends.
//!
//! [`BMI160::advance`] decides one step. The functions here follow the steps
//! through a list of replies, and the lemmas state what comes of it: with a
//! bus that works, initialisation makes fourteen requests in a fixed order;
//! with a bus that fails, the request that failed is the last.

use vstd::prelude::*;
use crate::bus::{Reply, Request};
use crate::i2c::{
    fault_of, Command, Register, Stage, Step, ACCEL_SETTLE_MS, BMI160, GYRO_SETTLE_MS,
    RESET_SETTLE_MS,
};

verus! {

impl BMI160 {
    /// The requests that are made from `stage` on while the transport
    /// answers with `replies[from]`, `replies[from + 1]` and so on: that of
    /// `stage`, and then, for as long as a reply leads to a next stage, that
    /// of the next stage.
    pub open spec fn requests_from<E>(
        &self,
        stage: Stage,
        replies: Seq<Reply<E>>,
        from: int,
    ) -> Seq<Request>
        decreases replies.len() - from,
    {
        if 0 <= from < replies.len() {
            match self.spec_advance(stage, replies[from]) {
                Step::Next(next) => seq![self.spec_request(stage)] + self.requests_from(
                    next,
                    replies,
                    from + 1,
                ),
                _ => seq![self.spec_request(stage)],
            }
        } else {
            seq![self.spec_request(stage)]
        }
    }

    /// The step on which the walk from `stage` ends while the transport
    /// answers with `replies[from]`, `replies[from + 1]` and so on: the first
    /// that names no next stage. There is none if the replies run out first.
    pub open spec fn outcome_from<E>(
        &self,
        stage: Stage,
        replies: Seq<Reply<E>>,
        from: int,
    ) -> Option<Step<E>>
        decreases replies.len() - from,
    {
        if 0 <= from < replies.len() {
            match self.spec_advance(stage, replies[from]) {
                Step::Next(next) => self.outcome_from(next, replies, from + 1),
                last => Some(last),
            }
        } else {
            None
        }
    }

    /// The requests of a walk that begins at `stage` and is answered with
    /// `replies` in turn.
    pub open spec fn requests<E>(&self, stage: Stage, replies: Seq<Reply<E>>) -> Seq<Request> {
        self.requests_from(stage, replies, 0)
    }

    /// The step on which a walk ends that begins at `stage` and is answered
    /// with `replies` in turn.
    pub open spec fn outcome<E>(&self, stage: Stage, replies: Seq<Reply<E>>) -> Option<Step<E>> {
        self.outcome_from(stage, replies, 0)
    }

    /// The eleven requests of configuring, when the accelerometer's registers
    /// read as `accel` and the gyroscope's as `gyro`.
    pub open spec fn configuration_requests(&self, accel: Seq<u8>, gyro: Seq<u8>) -> Seq<Request> {
        seq![
            Request::Read { addr: self.addr, reg: Register::AccelConfig.spec_addr(), len: 2 },
            Request::Write {
                addr: self.addr,
                reg: Register::AccelConfig.spec_addr(),
                value: self.config.accel_registers(accel)[0],
            },
            Request::Write {
                addr: self.addr,
                reg: Register::AccelRange.spec_addr(),
                value: self.config.accel_registers(accel)[1],
            },
            Request::Read { addr: self.addr, reg: Register::GyroConfig.spec_addr(), len: 2 },
            Request::Write {
                addr: self.addr,
                reg: Register::GyroConfig.spec_addr(),
                value: self.config.gyro_registers(gyro)[0],
            },
            Request::Write {
                addr: self.addr,
                reg: Register::GyroRange.spec_addr(),
                value: self.config.gyro_registers(gyro)[1],
            },
            Request::Write {
                addr: self.addr,
                reg: Register::Command.spec_addr(),
                value: self.config.accel_config.power.spec_bits(),
            },
            Request::Delay { ms: ACCEL_SETTLE_MS },
            Request::Write {
                addr: self.addr,
                reg: Register::Command.spec_addr(),
                value: self.config.gyro_config.power.spec_bits(),
            },
            Request::Delay { ms: GYRO_SETTLE_MS },
            Request::Read { addr: self.addr, reg: Register::Error.spec_addr(), len: 1 },
        ]
    }

    /// The fourteen requests of initialisation: the chip identity is read,
    /// the device is reset and left to settle, and then it is configured.
    pub open spec fn initialization_requests(&self, accel: Seq<u8>, gyro: Seq<u8>) -> Seq<
        Request,
    > {
        seq![
            Request::Read { addr: self.addr, reg: Register::ChipId.spec_addr(), len: 1 },
            Request::Write {
                addr: self.addr,
                reg: Register::Command.spec_addr(),
                value: Command::SoftReset.spec_val(),
            },
            Request::Delay { ms: RESET_SETTLE_MS },
        ] + self.configuration_requests(accel, gyro)
    }
}

/// The replies of a bus that works to the eleven requests of configuring,
/// from `replies[from]` on: the accelerometer's registers read as `accel`,
/// the gyroscope's as `gyro`, the error status as `status`, and every write
/// and wait is done.
pub open spec fn configuration_succeeds<E>(
    replies: Seq<Reply<E>>,
    from: int,
    accel: Seq<u8>,
    gyro: Seq<u8>,
    status: u8,
) -> bool {
    &&& 0 <= from
    &&& replies.len() == from + 11
    &&& accel.len() == 2
    &&& gyro.len() == 2
    &&& replies[from] is Data
    &&& replies[from].data() == accel
    &&& replies[from + 1] is Done
    &&& replies[from + 2] is Done
    &&& replies[from + 3] is Data
    &&& replies[from + 3].data() == gyro
    &&& replies[from + 4] is Done
    &&& replies[from + 5] is Done
    &&& replies[from + 6] is Done
    &&& replies[from + 7] is Done
    &&& replies[from + 8] is Done
    &&& replies[from + 9] is Done
    &&& replies[from + 10] is Data
    &&& replies[from + 10].data() == seq![status]
}

/// The replies of a bus that works to the fourteen requests of
/// initialisation: the chip identity reads as `chip_id`, the reset is
/// written and has settled, and configuring succeeds from the fourth reply
/// on.
pub open spec fn initialization_succeeds<E>(
    replies: Seq<Reply<E>>,
    chip_id: u8,
    accel: Seq<u8>,
    gyro: Seq<u8>,
    status: u8,
) -> bool {
    &&& replies[0] is Data
    &&& replies[0].data() == seq![chip_id]
    &&& replies[1] is Done
    &&& replies[2] is Done
    &&& configuration_succeeds(replies, 3, accel, gyro, status)
}

/// A step that names a next stage names the one whose place in the walk is
/// the next: no stage is passed twice, and none is left out. The device is
/// ready only after the last stage, and only the bus's failure aborts.
pub proof fn lemma_advance_moves_on<E>(sensor: BMI160, stage: Stage, reply: Reply<E>)
    ensures
        match sensor.spec_advance(stage, reply) {
            Step::Next(next) => {
                &&& next.position() == stage.position() + 1
                &&& reply.answers(sensor.spec_request(stage))
            },
            Step::Ready(_) => {
                &&& stage == Stage::ErrorStatus
                &&& reply.answers(sensor.spec_request(stage))
            },
            Step::Abort(e) => reply == Reply::Failed(e),
            Step::Unanswered => {
                &&& !(reply is Failed)
                &&& !reply.answers(sensor.spec_request(stage))
            },
        },
{
}

/// When the bus fails, the request that failed is the last of the walk, and
/// the walk ends with the bus's error.
pub proof fn lemma_failure_ends_walk<E>(
    sensor: BMI160,
    stage: Stage,
    replies: Seq<Reply<E>>,
    error: E,
)
    requires
        replies.len() > 0,
        replies[0] == Reply::Failed(error),
    ensures
        sensor.requests(stage, replies) == seq![sensor.spec_request(stage)],
        sensor.outcome(stage, replies) == Some(Step::Abort(error)),
{
}

/// On a bus that works, configuring makes its eleven requests in order:
/// the accelerometer's registers are read and written back, then the
/// gyroscope's, then the accelerometer's power mode is set and given 40 ms,
/// then the gyroscope's and given 80 ms, and the error status is read. The
/// walk ends ready, with the fault that the status reports.
pub proof fn lemma_configuration_walk<E>(
    sensor: BMI160,
    replies: Seq<Reply<E>>,
    from: int,
    accel: Seq<u8>,
    gyro: Seq<u8>,
    status: u8,
)
    requires
        configuration_succeeds(replies, from, accel, gyro, status),
    ensures
        sensor.requests_from(Stage::AccelRegisters, replies, from) == sensor.configuration_requests(
            accel,
            gyro,
        ),
        sensor.outcome_from(Stage::AccelRegisters, replies, from) == Some(
            Step::<E>::Ready(fault_of(status)),
        ),
{
    reveal_with_fuel(BMI160::requests_from, 12);
    reveal_with_fuel(BMI160::outcome_from, 12);
    assert(sensor.requests_from(Stage::AccelRegisters, replies, from)
        =~= sensor.configuration_requests(accel, gyro));
}

/// On a bus that works, initialisation makes its fourteen requests in
/// order: the chip identity is read, the soft reset is written and given
/// 2 ms, and the device is configured. The walk ends ready, with the fault
/// that the error status reports, whatever chip identity was read.
pub proof fn lemma_initialization_walk<E>(
    sensor: BMI160,
    replies: Seq<Reply<E>>,
    chip_id: u8,
    accel: Seq<u8>,
    gyro: Seq<u8>,
    status: u8,
)
    requires
        initialization_succeeds(replies, chip_id, accel, gyro, status),
    ensures
        sensor.requests(Stage::ChipId, replies) == sensor.initialization_requests(accel, gyro),
        sensor.outcome(Stage::ChipId, replies) == Some(Step::<E>::Ready(fault_of(status))),
{
    lemma_configuration_walk(sensor, replies, 3, accel, gyro, status);
    reveal_with_fuel(BMI160::requests_from, 4);
    reveal_with_fuel(BMI160::outcome_from, 4);
    assert(sensor.requests(Stage::ChipId, replies) =~= sensor.initialization_requests(
        accel,
        gyro,
    ));
}

} // verus!
