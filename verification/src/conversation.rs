//! Whole conversations between the driver and the bus: what the driver
//! issues, and how it ends, when its transactions are answered by a given
//! list of replies.

use vstd::prelude::*;
use crate::bus::{
    addressed_read, burst_read_actions, bytes_expected, control_write_actions, received,
    register_read_actions, register_write_actions, well_formed, write_exchange, BusActionView,
    BusReplyView,
};
use crate::driver::{
    after_reply, control_for, fault_message, mode_change, DriverState, Fault, Mode, Next,
    Outcome, Stage, StepView,
};
use crate::rates::{closest_output_rate, output_rate_index};
use crate::registers::{
    address_byte, lemma_rate_field, rate_field, scale_code, with_active_bit, with_rate_field,
    without_active_bit, CHIP_ID_REG, CTRL_REG1, I2C_ADDRESS, OUT_X_MSB, XYZ_DATA_CFG,
};
use crate::sample::sample_of;

verus! {

/// The record of a conversation.
pub struct Conversation {
    /// The configuration on record at its end.
    pub state: DriverState,
    /// The transactions the driver issued, in order.
    pub issued: Seq<Seq<BusActionView>>,
    /// How the operation ended, or `None` while a transaction is still
    /// waiting for its reply.
    pub outcome: Option<Outcome>,
}

/// The conversation that starts at `step` when the transactions are
/// answered by `replies[at]`, `replies[at + 1]` and so on.
pub open spec fn converse_from(
    state: DriverState,
    step: StepView,
    replies: Seq<BusReplyView>,
    at: nat,
) -> Conversation
    decreases replies.len() - at,
{
    match step {
        StepView::Finished(outcome) => Conversation {
            state,
            issued: Seq::empty(),
            outcome: Some(outcome),
        },
        StepView::Run(actions, stage) => if at >= replies.len() {
            Conversation { state, issued: seq![actions], outcome: None }
        } else {
            let (next_state, next_step) = after_reply(state, stage, replies[at as int]);
            let rest = converse_from(next_state, next_step, replies, at + 1);
            Conversation {
                state: rest.state,
                issued: seq![actions] + rest.issued,
                outcome: rest.outcome,
            }
        },
    }
}

/// The conversation that starts at `step` when the transactions are
/// answered by `replies`, first to last. Replies left over once the
/// operation has ended are not looked at.
pub open spec fn converse(state: DriverState, step: StepView, replies: Seq<BusReplyView>)
    -> Conversation {
    converse_from(state, step, replies, 0)
}

/// A reply that completed and delivered one byte.
pub open spec fn one_byte(byte: u8) -> BusReplyView {
    BusReplyView::Completed(seq![byte])
}

/// A reply that completed and delivered nothing.
pub open spec fn acknowledged() -> BusReplyView {
    BusReplyView::Completed(Seq::empty())
}

/// Number of bytes the transaction of a stage asks for.
pub open spec fn bytes_awaited(stage: Stage) -> nat {
    match stage {
        Stage::RegisterRead | Stage::ChipId | Stage::Probe | Stage::ModeRead(_, _)
        | Stage::RateRead(_) => 1,
        Stage::Burst => 6,
        Stage::RegisterWrite | Stage::ModeWrite(_) | Stage::ConfigWrite => 0,
    }
}

/// The most transactions an operation can still have answered from `stage`
/// on, the one on the bus included.
pub open spec fn transactions_left(stage: Stage) -> nat {
    match stage {
        Stage::RegisterRead | Stage::RegisterWrite | Stage::ChipId | Stage::Probe
        | Stage::Burst => 1,
        Stage::ModeRead(_, next) => 2 + transactions_after(next),
        Stage::ModeWrite(next) => 1 + transactions_after(next),
        Stage::RateRead(_) => 4,
        Stage::ConfigWrite => 3,
    }
}

/// The most transactions that can follow a mode change.
pub open spec fn transactions_after(next: Next) -> nat {
    match next {
        Next::Finish => 0,
        Next::SetRate(_) => 4,
        Next::SetScale(_) => 3,
    }
}

proof fn lemma_read_shape(enable: bool, register: u8, count: nat)
    ensures
        ({
            let actions = if enable {
                seq![BusActionView::EnableI2c] + addressed_read(register, count)
            } else {
                addressed_read(register, count)
            };
            well_formed(actions) && bytes_expected(actions) == count
        }),
{
    let body = addressed_read(register, count);
    let actions = if enable {
        seq![BusActionView::EnableI2c] + body
    } else {
        body
    };
    let last = actions.len() - 1;
    assert(actions[last] is Stop);
    assert forall|i: int| 0 <= i < actions.len() && (#[trigger] actions[i]) is Start implies exists|
        j: int,
    |
        i < j < actions.len() && (#[trigger] actions[j]) is Stop by {
        assert(i < last);
    }
    let a4 = actions.drop_last();
    let a3 = a4.drop_last();
    let a2 = a3.drop_last();
    let a1 = a2.drop_last();
    let a0 = a1.drop_last();
    assert(actions.last() is Stop);
    assert(a4.last() == BusActionView::Rx(count));
    assert(a3.last() is Start);
    assert(a2.last() is Tx);
    assert(a1.last() is Start);
    if enable {
        assert(a0.last() is EnableI2c);
        assert(a0.drop_last().len() == 0);
    } else {
        assert(a0.len() == 0);
    }
    reveal_with_fuel(bytes_expected, 8);
}

proof fn lemma_write_shape(start: u8, payload: Seq<u8>)
    ensures
        well_formed(write_exchange(start, payload)),
        bytes_expected(write_exchange(start, payload)) == 0,
{
    let actions = write_exchange(start, payload);
    assert(actions[3] is Stop);
    assert forall|i: int| 0 <= i < actions.len() && (#[trigger] actions[i]) is Start implies exists|
        j: int,
    |
        i < j < actions.len() && (#[trigger] actions[j]) is Stop by {
        assert(i < 3);
    }
    let a2 = actions.drop_last();
    let a1 = a2.drop_last();
    let a0 = a1.drop_last();
    assert(actions.last() is Stop);
    assert(a2.last() is Tx);
    assert(a1.last() is Start);
    assert(a0.last() is EnableI2c);
    assert(a0.drop_last().len() == 0);
    reveal_with_fuel(bytes_expected, 6);
}

proof fn lemma_ended(
    state: DriverState,
    outcome: Outcome,
    replies: Seq<BusReplyView>,
    at: nat,
)
    ensures
        converse_from(state, StepView::Finished(outcome), replies, at) == (Conversation {
            state,
            issued: Seq::empty(),
            outcome: Some(outcome),
        }),
{
}

proof fn lemma_answered(
    state: DriverState,
    actions: Seq<BusActionView>,
    stage: Stage,
    replies: Seq<BusReplyView>,
    at: nat,
)
    requires
        at < replies.len(),
    ensures
        ({
            let next = after_reply(state, stage, replies[at as int]);
            let rest = converse_from(next.0, next.1, replies, at + 1);
            let whole = converse_from(state, StepView::Run(actions, stage), replies, at);
            &&& whole.state == rest.state
            &&& whole.issued == seq![actions] + rest.issued
            &&& whole.outcome == rest.outcome
        }),
{
}

/// The transactions that open the operations are well formed, and each asks
/// for as many bytes as its stage awaits.
pub proof fn lemma_opening_transactions(register: u8, data: u8)
    ensures
        well_formed(register_read_actions(register)),
        bytes_expected(register_read_actions(register)) == 1,
        well_formed(register_write_actions(register, data)),
        bytes_expected(register_write_actions(register, data)) == 0,
        well_formed(burst_read_actions()),
        bytes_expected(burst_read_actions()) == 6,
        well_formed(control_write_actions(data)),
        bytes_expected(control_write_actions(data)) == 0,
{
    lemma_read_shape(true, register, 1);
    lemma_read_shape(false, OUT_X_MSB, 6);
    lemma_write_shape(address_byte(register, false), seq![data]);
    lemma_write_shape(
        address_byte(I2C_ADDRESS, false),
        seq![CTRL_REG1, data],
    );
}

/// Whatever the stage and the reply, a transaction that the driver names
/// next is well formed and asks for as many bytes as the stage it is paired
/// with awaits, and fewer transactions are left than before.
pub proof fn lemma_resume_makes_progress(state: DriverState, stage: Stage, reply: BusReplyView)
    ensures
        after_reply(state, stage, reply).1 matches StepView::Run(actions, following) ==> {
            &&& well_formed(actions)
            &&& bytes_expected(actions) == bytes_awaited(following)
            &&& transactions_left(following) < transactions_left(stage)
        },
{
    if let StepView::Run(actions, following) = after_reply(state, stage, reply).1 {
        match following {
            Stage::ModeWrite(_) => {
                let bytes = received(reply, 1)->0;
                let mode = stage->ModeRead_0;
                lemma_opening_transactions(0, control_for(mode, bytes[0]));
            },
            Stage::ConfigWrite => {
                match stage {
                    Stage::RateRead(index) => {
                        let bytes = received(reply, 1)->0;
                        lemma_opening_transactions(CTRL_REG1, with_rate_field(bytes[0], index));
                    },
                    _ => {
                        let code = stage->ModeWrite_0->SetScale_0;
                        lemma_opening_transactions(XYZ_DATA_CFG, code);
                    },
                }
            },
            _ => {
                lemma_opening_transactions(CTRL_REG1, 0);
            },
        }
    }
}

/// Every operation ends: once as many replies have come in as `stage` has
/// transactions left, and that is never more than six, the outcome is
/// known.
pub proof fn lemma_conversation_ends(
    state: DriverState,
    actions: Seq<BusActionView>,
    stage: Stage,
    replies: Seq<BusReplyView>,
    at: nat,
)
    requires
        at + transactions_left(stage) <= replies.len(),
    ensures
        1 <= transactions_left(stage) <= 6,
        converse_from(state, StepView::Run(actions, stage), replies, at).outcome is Some,
    decreases transactions_left(stage),
{
    let (next_state, next_step) = after_reply(state, stage, replies[at as int]);
    lemma_resume_makes_progress(state, stage, replies[at as int]);
    match next_step {
        StepView::Run(next_actions, following) => {
            lemma_conversation_ends(next_state, next_actions, following, replies, at + 1);
        },
        StepView::Finished(_) => {
            assert(converse_from(next_state, next_step, replies, at + 1).outcome is Some);
        },
    }
}

/// A register read ends with the byte that was read when the reply
/// delivers exactly one byte, and with the read fault otherwise: a failed
/// transport never yields a value. The recorded configuration is untouched.
pub proof fn lemma_read_register_result(state: DriverState, addr: u8, reply: BusReplyView)
    ensures
        ({
            let ended = converse(
                state,
                StepView::Run(register_read_actions(addr), Stage::RegisterRead),
                seq![reply],
            );
            &&& ended.state == state
            &&& ended.issued == seq![register_read_actions(addr)]
            &&& ended.outcome == Some(
                match reply {
                    BusReplyView::Completed(bytes) => if bytes.len() == 1 {
                        Outcome::Byte(bytes[0])
                    } else {
                        Outcome::Failed(Fault::ReadRegister)
                    },
                    BusReplyView::Failed => Outcome::Failed(Fault::ReadRegister),
                },
            )
        }),
        fault_message(Fault::ReadRegister) == "Unable to read register"@,
{
    reveal_with_fuel(converse_from, 2);
    let replies = seq![reply];
    assert(replies[0] == reply);
    let ended = converse(
        state,
        StepView::Run(register_read_actions(addr), Stage::RegisterRead),
        replies,
    );
    assert(ended.issued =~= seq![register_read_actions(addr)]);
}

/// A register write ends well when the reply completed and delivered
/// nothing, and with the write fault otherwise. The recorded configuration
/// is untouched.
pub proof fn lemma_write_register_result(
    state: DriverState,
    addr: u8,
    data: u8,
    reply: BusReplyView,
)
    ensures
        ({
            let ended = converse(
                state,
                StepView::Run(register_write_actions(addr, data), Stage::RegisterWrite),
                seq![reply],
            );
            &&& ended.state == state
            &&& ended.issued == seq![register_write_actions(addr, data)]
            &&& ended.outcome == Some(
                match reply {
                    BusReplyView::Completed(bytes) => if bytes.len() == 0 {
                        Outcome::Done
                    } else {
                        Outcome::Failed(Fault::WriteRegister)
                    },
                    BusReplyView::Failed => Outcome::Failed(Fault::WriteRegister),
                },
            )
        }),
        fault_message(Fault::WriteRegister) == "Unable to write to register"@,
{
    reveal_with_fuel(converse_from, 2);
    let replies = seq![reply];
    assert(replies[0] == reply);
    let ended = converse(
        state,
        StepView::Run(register_write_actions(addr, data), Stage::RegisterWrite),
        replies,
    );
    assert(ended.issued =~= seq![register_write_actions(addr, data)]);
}

/// Reading the three axes ends with the decoded sample when the reply
/// delivers exactly six bytes, and fatally otherwise. The recorded
/// configuration is untouched.
pub proof fn lemma_get_acceleration_result(state: DriverState, reply: BusReplyView)
    ensures
        ({
            let ended = converse(
                state,
                StepView::Run(burst_read_actions(), Stage::Burst),
                seq![reply],
            );
            &&& ended.state == state
            &&& ended.issued == seq![burst_read_actions()]
            &&& ended.outcome == Some(
                match reply {
                    BusReplyView::Completed(bytes) => if bytes.len() == 6 {
                        Outcome::Sample(sample_of(bytes))
                    } else {
                        Outcome::Fatal(Fault::Transport)
                    },
                    BusReplyView::Failed => Outcome::Fatal(Fault::Transport),
                },
            )
        }),
{
    reveal_with_fuel(converse_from, 2);
    let replies = seq![reply];
    assert(replies[0] == reply);
    let ended = converse(state, StepView::Run(burst_read_actions(), Stage::Burst), replies);
    assert(ended.issued =~= seq![burst_read_actions()]);
}

/// Reading the identification register. For the caller it ends with the
/// byte read, or with a fault that may be retried. As the probe of a new
/// driver it ends well whatever byte is read, and fatally when none is.
pub proof fn lemma_identification_result(state: DriverState, reply: BusReplyView)
    ensures
        ({
            let asked = converse(
                state,
                StepView::Run(register_read_actions(CHIP_ID_REG), Stage::ChipId),
                seq![reply],
            );
            let probed = converse(
                state,
                StepView::Run(register_read_actions(CHIP_ID_REG), Stage::Probe),
                seq![reply],
            );
            &&& asked.state == state
            &&& probed.state == state
            &&& asked.issued == seq![register_read_actions(CHIP_ID_REG)]
            &&& probed.issued == seq![register_read_actions(CHIP_ID_REG)]
            &&& match received(reply, 1) {
                Some(bytes) => {
                    &&& asked.outcome == Some(Outcome::Byte(bytes[0]))
                    &&& probed.outcome == Some(Outcome::Done)
                },
                None => {
                    &&& asked.outcome == Some(Outcome::Failed(Fault::ReadChipId))
                    &&& probed.outcome == Some(Outcome::Fatal(Fault::ReadChipId))
                },
            }
        }),
        fault_message(Fault::ReadChipId) == "Unable to read chip id"@,
{
    reveal_with_fuel(converse_from, 2);
    let replies = seq![reply];
    assert(replies[0] == reply);
    let asked = converse(
        state,
        StepView::Run(register_read_actions(CHIP_ID_REG), Stage::ChipId),
        replies,
    );
    let probed = converse(
        state,
        StepView::Run(register_read_actions(CHIP_ID_REG), Stage::Probe),
        replies,
    );
    assert(asked.issued =~= seq![register_read_actions(CHIP_ID_REG)]);
    assert(probed.issued =~= seq![register_read_actions(CHIP_ID_REG)]);
}

/// A mode change reads control register 1 and writes it back with only the
/// active bit changed. Whatever is reported of that write, the operation
/// ends well; if the read fails, it ends fatally before anything is
/// written.
pub proof fn lemma_mode_change(
    state: DriverState,
    mode: Mode,
    first: BusReplyView,
    second: BusReplyView,
)
    ensures
        ({
            let ended = converse(state, mode_change(mode, Next::Finish), seq![first, second]);
            &&& ended.state == state
            &&& match received(first, 1) {
                Some(bytes) => {
                    &&& ended.outcome == Some(Outcome::Done)
                    &&& ended.issued == seq![
                        register_read_actions(CTRL_REG1),
                        control_write_actions(control_for(mode, bytes[0])),
                    ]
                },
                None => {
                    &&& ended.outcome == Some(Outcome::Fatal(Fault::ReadRegister))
                    &&& ended.issued == seq![register_read_actions(CTRL_REG1)]
                },
            }
        }),
{
    let replies = seq![first, second];
    assert(replies[0] == first && replies[1] == second);
    let read = register_read_actions(CTRL_REG1);
    lemma_answered(state, read, Stage::ModeRead(mode, Next::Finish), replies, 0);
    match received(first, 1) {
        Some(bytes) => {
            let write = control_write_actions(control_for(mode, bytes[0]));
            lemma_answered(state, write, Stage::ModeWrite(Next::Finish), replies, 1);
            lemma_ended(state, Outcome::Done, replies, 2);
            assert(seq![read] + (seq![write] + Seq::empty()) =~= seq![read, write]);
        },
        None => {
            lemma_ended(state, Outcome::Fatal(Fault::ReadRegister), replies, 1);
            assert(seq![read] + Seq::empty() =~= seq![read]);
        },
    }
}

/// Setting the output rate on a bus that answers: the device is put in
/// standby, control register 1 is read and written back with the index of
/// the granted rate in bits 3 to 5 and every other bit as it was read, and
/// the device is made active again as the last step. The granted rate is on
/// record at the end. What is reported of the two mode writes does not
/// matter.
pub proof fn lemma_set_output_rate_succeeds(
    state: DriverState,
    hz: i64,
    standby: u8,
    standby_write: BusReplyView,
    control: u8,
    active: u8,
    active_write: BusReplyView,
)
    requires
        hz > 0,
    ensures
        ({
            let rate = closest_output_rate(hz as int);
            let index = output_rate_index(rate)->0;
            let written = with_rate_field(control, index);
            let ended = converse(
                state,
                mode_change(Mode::Standby, Next::SetRate(hz)),
                seq![
                    one_byte(standby),
                    standby_write,
                    one_byte(control),
                    acknowledged(),
                    one_byte(active),
                    active_write,
                ],
            );
            &&& output_rate_index(rate).is_some()
            &&& rate_field(written) == index
            &&& written & 0xC7 == control & 0xC7
            &&& ended.outcome == Some(Outcome::Done)
            &&& ended.state == (DriverState {
                output_rate: rate as u32,
                scale_range: state.scale_range,
            })
            &&& ended.issued == seq![
                register_read_actions(CTRL_REG1),
                control_write_actions(without_active_bit(standby)),
                register_read_actions(CTRL_REG1),
                register_write_actions(CTRL_REG1, written),
                register_read_actions(CTRL_REG1),
                control_write_actions(with_active_bit(active)),
            ]
        }),
{
    let rate = closest_output_rate(hz as int);
    let index = output_rate_index(rate)->0;
    let written = with_rate_field(control, index);
    lemma_rate_field(control, index);
    let replies = seq![
        one_byte(standby),
        standby_write,
        one_byte(control),
        acknowledged(),
        one_byte(active),
        active_write,
    ];
    assert(replies[0] == one_byte(standby) && replies[1] == standby_write && replies[2]
        == one_byte(control) && replies[3] == acknowledged() && replies[4] == one_byte(active)
        && replies[5] == active_write);
    assert(one_byte(standby)->Completed_0[0] == standby);
    assert(one_byte(control)->Completed_0[0] == control);
    assert(one_byte(active)->Completed_0[0] == active);
    let recorded = DriverState { output_rate: rate as u32, scale_range: state.scale_range };
    let read = register_read_actions(CTRL_REG1);
    let to_standby = control_write_actions(without_active_bit(standby));
    let rate_write = register_write_actions(CTRL_REG1, written);
    let to_active = control_write_actions(with_active_bit(active));
    lemma_ended(recorded, Outcome::Done, replies, 6);
    lemma_answered(recorded, to_active, Stage::ModeWrite(Next::Finish), replies, 5);
    lemma_answered(recorded, read, Stage::ModeRead(Mode::Active, Next::Finish), replies, 4);
    lemma_answered(recorded, rate_write, Stage::ConfigWrite, replies, 3);
    lemma_answered(recorded, read, Stage::RateRead(index), replies, 2);
    lemma_answered(state, to_standby, Stage::ModeWrite(Next::SetRate(hz)), replies, 1);
    lemma_answered(state, read, Stage::ModeRead(Mode::Standby, Next::SetRate(hz)), replies, 0);
    assert(seq![read] + (seq![to_standby] + (seq![read] + (seq![rate_write] + (seq![read] + (
    seq![to_active] + Seq::empty()))))) =~= seq![
        read,
        to_standby,
        read,
        rate_write,
        read,
        to_active,
    ]);
}

/// Setting the output rate on a bus that fails. If control register 1
/// cannot be read for the change to standby, the operation ends fatally
/// with nothing on record. Once the device is in standby the granted rate
/// is on record, whatever follows: a request that is not positive ends
/// fatally with 0 on record; a failed read or a failed write of the rate
/// ends with the matching fault, and the device is left in standby.
pub proof fn lemma_set_output_rate_fails(
    state: DriverState,
    hz: i64,
    standby: u8,
    standby_write: BusReplyView,
    control: u8,
    failing: BusReplyView,
)
    requires
        received(failing, 1) is None,
        received(failing, 0) is None,
    ensures
        ({
            let opening = mode_change(Mode::Standby, Next::SetRate(hz));
            let rate = closest_output_rate(hz as int);
            let recorded = DriverState {
                output_rate: rate as u32,
                scale_range: state.scale_range,
            };
            let no_standby = converse(state, opening, seq![failing]);
            let no_read = converse(
                state,
                opening,
                seq![one_byte(standby), standby_write, failing],
            );
            let no_write = converse(
                state,
                opening,
                seq![one_byte(standby), standby_write, one_byte(control), failing],
            );
            &&& no_standby.outcome == Some(Outcome::Fatal(Fault::ReadRegister))
            &&& no_standby.state == state
            &&& no_read.state == recorded
            &&& no_write.state == recorded
            &&& hz <= 0 ==> rate == 0 && no_read.outcome == Some(
                Outcome::Fatal(Fault::NoValidRate),
            ) && no_write.outcome == Some(Outcome::Fatal(Fault::NoValidRate))
            &&& hz > 0 ==> no_read.outcome == Some(Outcome::Failed(Fault::ReadRegister))
                && no_write.outcome == Some(Outcome::Failed(Fault::WriteRegister))
        }),
{
    let first = seq![failing];
    let second = seq![one_byte(standby), standby_write, failing];
    let third = seq![one_byte(standby), standby_write, one_byte(control), failing];
    assert(first[0] == failing);
    assert(second[0] == one_byte(standby) && second[1] == standby_write && second[2] == failing);
    assert(third[0] == one_byte(standby) && third[1] == standby_write && third[2] == one_byte(
        control,
    ) && third[3] == failing);
    assert(one_byte(standby)->Completed_0[0] == standby);
    assert(one_byte(control)->Completed_0[0] == control);
    let rate = closest_output_rate(hz as int);
    let recorded = DriverState { output_rate: rate as u32, scale_range: state.scale_range };
    let read = register_read_actions(CTRL_REG1);
    let to_standby = control_write_actions(without_active_bit(standby));
    let opened = Stage::ModeRead(Mode::Standby, Next::SetRate(hz));
    let entered = Stage::ModeWrite(Next::SetRate(hz));

    lemma_answered(state, read, opened, first, 0);
    lemma_ended(state, Outcome::Fatal(Fault::ReadRegister), first, 1);

    lemma_answered(state, read, opened, second, 0);
    lemma_answered(state, to_standby, entered, second, 1);
    lemma_answered(state, read, opened, third, 0);
    lemma_answered(state, to_standby, entered, third, 1);
    match output_rate_index(rate) {
        Some(index) => {
            let rate_write = register_write_actions(CTRL_REG1, with_rate_field(control, index));
            lemma_answered(recorded, read, Stage::RateRead(index), second, 2);
            lemma_ended(recorded, Outcome::Failed(Fault::ReadRegister), second, 3);
            lemma_answered(recorded, read, Stage::RateRead(index), third, 2);
            lemma_answered(recorded, rate_write, Stage::ConfigWrite, third, 3);
            lemma_ended(recorded, Outcome::Failed(Fault::WriteRegister), third, 4);
        },
        None => {
            lemma_ended(recorded, Outcome::Fatal(Fault::NoValidRate), second, 2);
            lemma_ended(recorded, Outcome::Fatal(Fault::NoValidRate), third, 2);
        },
    }
}

/// Setting the scale range on a bus that answers: the device is put in
/// standby, the scale code is written to the data configuration register,
/// and the device is made active again as the last step. The range itself
/// went on record when the operation was opened, and stays as it is.
pub proof fn lemma_set_scale_range_succeeds(
    state: DriverState,
    requested: u8,
    standby: u8,
    standby_write: BusReplyView,
    active: u8,
    active_write: BusReplyView,
)
    ensures
        ({
            let ended = converse(
                state,
                mode_change(Mode::Standby, Next::SetScale(scale_code(requested))),
                seq![
                    one_byte(standby),
                    standby_write,
                    acknowledged(),
                    one_byte(active),
                    active_write,
                ],
            );
            &&& ended.outcome == Some(Outcome::Done)
            &&& ended.state == state
            &&& ended.issued == seq![
                register_read_actions(CTRL_REG1),
                control_write_actions(without_active_bit(standby)),
                register_write_actions(XYZ_DATA_CFG, scale_code(requested)),
                register_read_actions(CTRL_REG1),
                control_write_actions(with_active_bit(active)),
            ]
        }),
{
    let replies = seq![
        one_byte(standby),
        standby_write,
        acknowledged(),
        one_byte(active),
        active_write,
    ];
    assert(replies[0] == one_byte(standby) && replies[1] == standby_write && replies[2]
        == acknowledged() && replies[3] == one_byte(active) && replies[4] == active_write);
    assert(one_byte(standby)->Completed_0[0] == standby);
    assert(one_byte(active)->Completed_0[0] == active);
    let code = scale_code(requested);
    let read = register_read_actions(CTRL_REG1);
    let to_standby = control_write_actions(without_active_bit(standby));
    let scale_write = register_write_actions(XYZ_DATA_CFG, code);
    let to_active = control_write_actions(with_active_bit(active));
    lemma_ended(state, Outcome::Done, replies, 5);
    lemma_answered(state, to_active, Stage::ModeWrite(Next::Finish), replies, 4);
    lemma_answered(state, read, Stage::ModeRead(Mode::Active, Next::Finish), replies, 3);
    lemma_answered(state, scale_write, Stage::ConfigWrite, replies, 2);
    lemma_answered(state, to_standby, Stage::ModeWrite(Next::SetScale(code)), replies, 1);
    lemma_answered(state, read, Stage::ModeRead(Mode::Standby, Next::SetScale(code)), replies, 0);
    assert(seq![read] + (seq![to_standby] + (seq![scale_write] + (seq![read] + (seq![to_active]
        + Seq::empty())))) =~= seq![read, to_standby, scale_write, read, to_active]);
}

/// Setting the scale range on a bus that fails. If control register 1
/// cannot be read for the change to standby, the operation ends fatally; if
/// the scale code cannot be written, it ends with the write fault and the
/// device is left in standby.
pub proof fn lemma_set_scale_range_fails(
    state: DriverState,
    requested: u8,
    standby: u8,
    standby_write: BusReplyView,
    failing: BusReplyView,
)
    requires
        received(failing, 1) is None,
        received(failing, 0) is None,
    ensures
        ({
            let opening = mode_change(Mode::Standby, Next::SetScale(scale_code(requested)));
            let no_standby = converse(state, opening, seq![failing]);
            let no_write = converse(
                state,
                opening,
                seq![one_byte(standby), standby_write, failing],
            );
            &&& no_standby.outcome == Some(Outcome::Fatal(Fault::ReadRegister))
            &&& no_standby.state == state
            &&& no_write.outcome == Some(Outcome::Failed(Fault::WriteRegister))
            &&& no_write.state == state
        }),
{
    let first = seq![failing];
    let second = seq![one_byte(standby), standby_write, failing];
    assert(first[0] == failing);
    assert(second[0] == one_byte(standby) && second[1] == standby_write && second[2] == failing);
    assert(one_byte(standby)->Completed_0[0] == standby);
    let code = scale_code(requested);
    let read = register_read_actions(CTRL_REG1);
    let to_standby = control_write_actions(without_active_bit(standby));
    let scale_write = register_write_actions(XYZ_DATA_CFG, code);
    let opened = Stage::ModeRead(Mode::Standby, Next::SetScale(code));
    lemma_answered(state, read, opened, first, 0);
    lemma_ended(state, Outcome::Fatal(Fault::ReadRegister), first, 1);
    lemma_answered(state, read, opened, second, 0);
    lemma_answered(state, to_standby, Stage::ModeWrite(Next::SetScale(code)), second, 1);
    lemma_answered(state, scale_write, Stage::ConfigWrite, second, 2);
    lemma_ended(state, Outcome::Failed(Fault::WriteRegister), second, 3);
}

} // verus!
