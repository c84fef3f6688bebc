//! The accelerometer driver as a conversation with the bus.
//!
//! Each operation starts by naming the first transaction to run. The caller
//! runs it on its transport and passes the reply to
//! [`Accelerometer::resume`], which either names the next transaction or
//! reports how the operation ended. The driver never touches a transport
//! itself.
//!
//! Failures come in two kinds. A recoverable failure is the result of the
//! operation and may be retried. A fatal failure means that the device is
//! absent or the bus does not work; the caller is expected to give up.

use vstd::prelude::*;
use crate::bus::{
    burst_read_actions, control_write_actions, received, register_read_actions,
    register_write_actions, BusActionView, BusReply, BusReplyView, Transaction,
};
use crate::rates::{
    closest_output_rate, closest_rate, output_rate_index, output_rate_table, output_rates,
    rate_index, DEFAULT_OUTPUT_RATE,
};
use crate::registers::{
    clamp_scale_range, clamped_scale_range, clear_active_bit, encode_scale_range, scale_code,
    scale_range_table, scale_ranges, set_active_bit, set_rate_field, with_active_bit,
    with_rate_field, without_active_bit, CHIP_ID_REG, CTRL_REG1, DEFAULT_SCALE_RANGE,
    XYZ_DATA_CFG,
};
use crate::sample::{decode_sample, sample_of, Acceleration};

verus! {

/// What went wrong.
#[derive(Clone, Copy, Debug, PartialEq, Eq, Structural)]
pub enum Fault {
    /// A register could not be read.
    ReadRegister,
    /// A register could not be written.
    WriteRegister,
    /// The identification register could not be read.
    ReadChipId,
    /// The burst read of the output data registers did not go through.
    Transport,
    /// A rate was requested that rounds to no supported rate.
    NoValidRate,
}

/// The two power states of the device.
#[derive(Clone, Copy, Debug, PartialEq, Eq, Structural)]
pub enum Mode {
    /// Registers are writable; no data is produced.
    Standby,
    /// The device samples and publishes data.
    Active,
}

/// What an operation does once a mode change is through.
#[derive(Clone, Copy, Debug, PartialEq, Eq, Structural)]
pub enum Next {
    /// Nothing: the operation is complete.
    Finish,
    /// Negotiate the output rate for a request in hundredths of a hertz.
    SetRate(i64),
    /// Write this scale code to the data configuration register.
    SetScale(u8),
}

/// Where an operation stands: which transaction is on the bus, and so what
/// its reply will mean.
#[derive(Clone, Copy, Debug, PartialEq, Eq, Structural)]
pub enum Stage {
    /// A register is being read for the caller.
    RegisterRead,
    /// A register is being written for the caller.
    RegisterWrite,
    /// The identification register is being read for the caller.
    ChipId,
    /// The identification register is being read to see whether the device
    /// answers at all.
    Probe,
    /// The output data registers are being read.
    Burst,
    /// Control register 1 is being read ahead of a change to that mode.
    ModeRead(Mode, Next),
    /// Control register 1 is being rewritten with the new active bit.
    ModeWrite(Next),
    /// Control register 1 is being read ahead of writing this rate index.
    RateRead(u8),
    /// A configuration value is being written; the device is in standby.
    ConfigWrite,
}

/// How an operation ended.
#[derive(Clone, Copy, Debug, PartialEq, Eq, Structural)]
pub enum Outcome {
    /// It completed and has nothing to report.
    Done,
    /// It completed with the byte that was read.
    Byte(u8),
    /// It completed with a reading of the three axes.
    Sample(Acceleration),
    /// It failed; the caller may inspect the fault and retry.
    Failed(Fault),
    /// It failed beyond recovery.
    Fatal(Fault),
}

/// What the caller is to do next.
#[derive(Debug, PartialEq, Eq)]
pub enum Step {
    /// Run the transaction and resume at the stage with its reply.
    Run(Transaction, Stage),
    /// Nothing: the operation has ended.
    Finished(Outcome),
}

/// A step as a mathematical value.
pub enum StepView {
    Run(Seq<BusActionView>, Stage),
    Finished(Outcome),
}

impl View for Step {
    type V = StepView;

    open spec fn view(&self) -> StepView {
        match self {
            Step::Run(transaction, stage) => StepView::Run(transaction@, *stage),
            Step::Finished(outcome) => StepView::Finished(*outcome),
        }
    }
}

/// The configuration a driver has recorded.
pub struct DriverState {
    /// Output rate in hundredths of a hertz.
    pub output_rate: u32,
    /// Scale range in g.
    pub scale_range: u8,
}

/// The driver. It records the output rate and the scale range it last
/// negotiated; both are recorded before the hardware write that applies
/// them is confirmed, so after a failed write the record and the device may
/// differ.
#[derive(Debug)]
pub struct Accelerometer {
    output_rate: u32,
    scale_range: u8,
}

impl View for Accelerometer {
    type V = DriverState;

    closed spec fn view(&self) -> DriverState {
        DriverState { output_rate: self.output_rate, scale_range: self.scale_range }
    }
}

/// The message that goes with a fault.
pub open spec fn fault_message(fault: Fault) -> Seq<char> {
    match fault {
        Fault::ReadRegister => "Unable to read register"@,
        Fault::WriteRegister => "Unable to write to register"@,
        Fault::ReadChipId => "Unable to read chip id"@,
        Fault::Transport => "Bus transaction failed"@,
        Fault::NoValidRate => "No valid output rate"@,
    }
}

/// The value control register 1 is rewritten with to enter `mode`.
pub open spec fn control_for(mode: Mode, control: u8) -> u8 {
    match mode {
        Mode::Active => with_active_bit(control),
        Mode::Standby => without_active_bit(control),
    }
}

/// The step that opens a change to `mode`: control register 1 is read first.
pub open spec fn mode_change(mode: Mode, next: Next) -> StepView {
    StepView::Run(register_read_actions(CTRL_REG1), Stage::ModeRead(mode, next))
}

/// What follows a completed mode change.
pub open spec fn after_mode_change(state: DriverState, next: Next) -> (DriverState, StepView) {
    match next {
        Next::Finish => (state, StepView::Finished(Outcome::Done)),
        Next::SetRate(requested) => {
            let rate = closest_output_rate(requested as int) as u32;
            let recorded = DriverState { output_rate: rate, scale_range: state.scale_range };
            match output_rate_index(rate as int) {
                Some(index) => (
                    recorded,
                    StepView::Run(register_read_actions(CTRL_REG1), Stage::RateRead(index)),
                ),
                None => (recorded, StepView::Finished(Outcome::Fatal(Fault::NoValidRate))),
            }
        },
        Next::SetScale(code) => (
            state,
            StepView::Run(register_write_actions(XYZ_DATA_CFG, code), Stage::ConfigWrite),
        ),
    }
}

/// The driver's transition function: the recorded configuration and the
/// step that follow when the transaction of `stage` is answered by `reply`.
pub open spec fn after_reply(state: DriverState, stage: Stage, reply: BusReplyView) -> (
    DriverState,
    StepView,
) {
    match stage {
        Stage::RegisterRead => (
            state,
            StepView::Finished(
                match received(reply, 1) {
                    Some(bytes) => Outcome::Byte(bytes[0]),
                    None => Outcome::Failed(Fault::ReadRegister),
                },
            ),
        ),
        Stage::RegisterWrite => (
            state,
            StepView::Finished(
                match received(reply, 0) {
                    Some(_) => Outcome::Done,
                    None => Outcome::Failed(Fault::WriteRegister),
                },
            ),
        ),
        Stage::ChipId => (
            state,
            StepView::Finished(
                match received(reply, 1) {
                    Some(bytes) => Outcome::Byte(bytes[0]),
                    None => Outcome::Failed(Fault::ReadChipId),
                },
            ),
        ),
        Stage::Probe => (
            state,
            StepView::Finished(
                match received(reply, 1) {
                    Some(_) => Outcome::Done,
                    None => Outcome::Fatal(Fault::ReadChipId),
                },
            ),
        ),
        Stage::Burst => (
            state,
            StepView::Finished(
                match received(reply, 6) {
                    Some(bytes) => Outcome::Sample(sample_of(bytes)),
                    None => Outcome::Fatal(Fault::Transport),
                },
            ),
        ),
        Stage::ModeRead(mode, next) => (
            state,
            match received(reply, 1) {
                Some(bytes) => StepView::Run(
                    control_write_actions(control_for(mode, bytes[0])),
                    Stage::ModeWrite(next),
                ),
                None => StepView::Finished(Outcome::Fatal(Fault::ReadRegister)),
            },
        ),
        Stage::ModeWrite(next) => after_mode_change(state, next),
        Stage::RateRead(index) => (
            state,
            match received(reply, 1) {
                Some(bytes) => StepView::Run(
                    register_write_actions(CTRL_REG1, with_rate_field(bytes[0], index)),
                    Stage::ConfigWrite,
                ),
                None => StepView::Finished(Outcome::Failed(Fault::ReadRegister)),
            },
        ),
        Stage::ConfigWrite => (
            state,
            match received(reply, 0) {
                Some(_) => mode_change(Mode::Active, Next::Finish),
                None => StepView::Finished(Outcome::Failed(Fault::WriteRegister)),
            },
        ),
    }
}

impl Fault {
    /// The fixed text that describes the fault.
    pub fn message(&self) -> (text: &'static str)
        ensures
            text@ == fault_message(*self),
    {
        match self {
            Fault::ReadRegister => "Unable to read register",
            Fault::WriteRegister => "Unable to write to register",
            Fault::ReadChipId => "Unable to read chip id",
            Fault::Transport => "Bus transaction failed",
            Fault::NoValidRate => "No valid output rate",
        }
    }
}

impl Accelerometer {
    #[verifier::type_invariant]
    spec fn inv(self) -> bool {
        &&& self.scale_range <= 8
        &&& (self.output_rate == 0 || output_rate_index(self.output_rate as int).is_some())
    }

    /// Creates a driver with the default configuration (12.5 Hz, 2 g) and
    /// opens the probe that shows whether the device answers: a read of the
    /// identification register. The value read is not compared with
    /// anything.
    pub fn new() -> (created: (Accelerometer, Step))
        ensures
            created.0@ == (DriverState { output_rate: 1250, scale_range: 2 }),
            created.1@ == StepView::Run(register_read_actions(CHIP_ID_REG), Stage::Probe),
    {
        let accelerometer = Accelerometer {
            output_rate: DEFAULT_OUTPUT_RATE,
            scale_range: DEFAULT_SCALE_RANGE,
        };
        (accelerometer, Step::Run(Transaction::register_read(CHIP_ID_REG), Stage::Probe))
    }

    /// The output rate on record, in hundredths of a hertz: a supported
    /// rate, or 0 after a request that was not positive.
    pub fn output_rate(&self) -> (rate: u32)
        ensures
            rate == self@.output_rate,
            rate == 0 || output_rate_index(rate as int).is_some(),
    {
        proof {
            use_type_invariant(self);
        }
        self.output_rate
    }

    /// The scale range on record, in g. It is at most 8 and need not be one
    /// of the ranges the device offers.
    pub fn scale_range(&self) -> (range: u8)
        ensures
            range == self@.scale_range,
            range <= 8,
    {
        proof {
            use_type_invariant(self);
        }
        self.scale_range
    }

    /// Opens the change to active mode, in which the device produces data.
    pub fn mode_active(&mut self) -> (step: Step)
        ensures
            final(self)@ == old(self)@,
            step@ == mode_change(Mode::Active, Next::Finish),
    {
        Step::Run(Transaction::register_read(CTRL_REG1), Stage::ModeRead(Mode::Active, Next::Finish))
    }

    /// Opens the change to standby mode, in which registers can be written.
    pub fn mode_standby(&mut self) -> (step: Step)
        ensures
            final(self)@ == old(self)@,
            step@ == mode_change(Mode::Standby, Next::Finish),
    {
        Step::Run(
            Transaction::register_read(CTRL_REG1),
            Stage::ModeRead(Mode::Standby, Next::Finish),
        )
    }

    /// Opens the write of one byte to a register.
    pub fn write_register(&mut self, addr: u8, data: u8) -> (step: Step)
        ensures
            final(self)@ == old(self)@,
            step@ == StepView::Run(register_write_actions(addr, data), Stage::RegisterWrite),
    {
        Step::Run(Transaction::register_write(addr, data), Stage::RegisterWrite)
    }

    /// Opens the read of one register.
    pub fn read_register(&mut self, addr: u8) -> (step: Step)
        ensures
            final(self)@ == old(self)@,
            step@ == StepView::Run(register_read_actions(addr), Stage::RegisterRead),
    {
        Step::Run(Transaction::register_read(addr), Stage::RegisterRead)
    }

    /// Opens the read of the three axes.
    pub fn get_acceleration(&mut self) -> (step: Step)
        ensures
            final(self)@ == old(self)@,
            step@ == StepView::Run(burst_read_actions(), Stage::Burst),
    {
        Step::Run(Transaction::burst_read(), Stage::Burst)
    }

    /// Opens the read of the identification register.
    pub fn get_chip_id(&mut self) -> (step: Step)
        ensures
            final(self)@ == old(self)@,
            step@ == StepView::Run(register_read_actions(CHIP_ID_REG), Stage::ChipId),
    {
        Step::Run(Transaction::register_read(CHIP_ID_REG), Stage::ChipId)
    }

    /// The supported output rates in hundredths of a hertz, fastest first.
    pub fn available_output_rates(&mut self) -> (rates: [u32; 8])
        ensures
            final(self)@ == old(self)@,
            rates@ == output_rate_table(),
    {
        output_rates()
    }

    /// The scale ranges the device offers, in g.
    pub fn available_scale_ranges(&mut self) -> (ranges: [u8; 3])
        ensures
            final(self)@ == old(self)@,
            ranges@ == scale_range_table(),
    {
        scale_ranges()
    }

    /// The rate that would be granted for a request, both in hundredths of
    /// a hertz.
    pub fn get_closest_output_rate(&mut self, requested_rate: i64) -> (rate: u32)
        ensures
            final(self)@ == old(self)@,
            rate == closest_output_rate(requested_rate as int),
    {
        closest_rate(requested_rate)
    }

    /// Opens the negotiation of the output rate for a request in hundredths
    /// of a hertz. The device is put in standby first; the rate is recorded
    /// once it is.
    pub fn set_output_rate(&mut self, hz: i64) -> (step: Step)
        ensures
            final(self)@ == old(self)@,
            step@ == mode_change(Mode::Standby, Next::SetRate(hz)),
    {
        Step::Run(
            Transaction::register_read(CTRL_REG1),
            Stage::ModeRead(Mode::Standby, Next::SetRate(hz)),
        )
    }

    /// Records the requested scale range, capped at 8, and opens the
    /// sequence that writes its code to the device.
    pub fn set_scale_range(&mut self, scale_range: u8) -> (step: Step)
        ensures
            final(self)@ == (DriverState {
                output_rate: old(self)@.output_rate,
                scale_range: clamped_scale_range(scale_range),
            }),
            step@ == mode_change(Mode::Standby, Next::SetScale(scale_code(scale_range))),
    {
        proof {
            use_type_invariant(&*self);
        }
        self.scale_range = clamp_scale_range(scale_range);
        let code: u8 = encode_scale_range(scale_range);
        Step::Run(
            Transaction::register_read(CTRL_REG1),
            Stage::ModeRead(Mode::Standby, Next::SetScale(code)),
        )
    }

    fn finish_mode_change(&mut self, next: Next) -> (step: Step)
        ensures
            (final(self)@, step@) == after_mode_change(old(self)@, next),
    {
        proof {
            use_type_invariant(&*self);
        }
        match next {
            Next::Finish => Step::Finished(Outcome::Done),
            Next::SetRate(requested) => {
                let rate: u32 = closest_rate(requested);
                self.output_rate = rate;
                match rate_index(rate) {
                    Some(index) => Step::Run(
                        Transaction::register_read(CTRL_REG1),
                        Stage::RateRead(index),
                    ),
                    None => Step::Finished(Outcome::Fatal(Fault::NoValidRate)),
                }
            },
            Next::SetScale(code) => Step::Run(
                Transaction::register_write(XYZ_DATA_CFG, code),
                Stage::ConfigWrite,
            ),
        }
    }

    /// Continues an operation with the reply to the transaction that the
    /// last step named. `stage` is the stage that step carried.
    pub fn resume(&mut self, stage: Stage, reply: BusReply) -> (step: Step)
        ensures
            (final(self)@, step@) == after_reply(old(self)@, stage, reply@),
    {
        match stage {
            Stage::RegisterRead => match reply.single_byte() {
                Some(byte) => Step::Finished(Outcome::Byte(byte)),
                None => Step::Finished(Outcome::Failed(Fault::ReadRegister)),
            },
            Stage::RegisterWrite => if reply.acknowledges() {
                Step::Finished(Outcome::Done)
            } else {
                Step::Finished(Outcome::Failed(Fault::WriteRegister))
            },
            Stage::ChipId => match reply.single_byte() {
                Some(byte) => Step::Finished(Outcome::Byte(byte)),
                None => Step::Finished(Outcome::Failed(Fault::ReadChipId)),
            },
            Stage::Probe => match reply.single_byte() {
                Some(_) => Step::Finished(Outcome::Done),
                None => Step::Finished(Outcome::Fatal(Fault::ReadChipId)),
            },
            Stage::Burst => {
                let decoded: Option<Acceleration> = match &reply {
                    BusReply::Completed(bytes) => decode_sample(bytes),
                    BusReply::Failed => None,
                };
                match decoded {
                    Some(sample) => Step::Finished(Outcome::Sample(sample)),
                    None => Step::Finished(Outcome::Fatal(Fault::Transport)),
                }
            },
            Stage::ModeRead(mode, next) => match reply.single_byte() {
                Some(control) => {
                    let updated: u8 = match mode {
                        Mode::Active => set_active_bit(control),
                        Mode::Standby => clear_active_bit(control),
                    };
                    Step::Run(Transaction::control_write(updated), Stage::ModeWrite(next))
                },
                None => Step::Finished(Outcome::Fatal(Fault::ReadRegister)),
            },
            Stage::ModeWrite(next) => self.finish_mode_change(next),
            Stage::RateRead(index) => match reply.single_byte() {
                Some(control) => Step::Run(
                    Transaction::register_write(CTRL_REG1, set_rate_field(control, index)),
                    Stage::ConfigWrite,
                ),
                None => Step::Finished(Outcome::Failed(Fault::ReadRegister)),
            },
            Stage::ConfigWrite => if reply.acknowledges() {
                Step::Run(
                    Transaction::register_read(CTRL_REG1),
                    Stage::ModeRead(Mode::Active, Next::Finish),
                )
            } else {
                Step::Finished(Outcome::Failed(Fault::WriteRegister))
            },
        }
    }
}

} // verus!
