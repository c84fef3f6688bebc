//! Bus transactions as plain data. A transaction is an ordered list of bus
//! actions that the transport executes as one atomic exchange; a reply is
//! what the transport reports back.

use vstd::prelude::*;
use crate::registers::{address_byte, make_address_byte, CTRL_REG1, I2C_ADDRESS, OUT_X_MSB};
use crate::sample::SAMPLE_BYTES;

verus! {

/// One primitive of the bus transport.
#[derive(Debug, PartialEq, Eq)]
pub enum BusAction {
    /// Switch the bus controller to two-wire mode.
    EnableI2c,
    /// Issue a start condition followed by the address and direction byte.
    Start(u8),
    /// Clock the bytes out.
    Tx(Vec<u8>),
    /// Clock that many bytes in.
    Rx(usize),
    /// Issue a stop condition.
    Stop,
}

/// A bus action as a mathematical value.
pub enum BusActionView {
    EnableI2c,
    Start(u8),
    Tx(Seq<u8>),
    Rx(nat),
    Stop,
}

impl View for BusAction {
    type V = BusActionView;

    open spec fn view(&self) -> BusActionView {
        match self {
            BusAction::EnableI2c => BusActionView::EnableI2c,
            BusAction::Start(byte) => BusActionView::Start(*byte),
            BusAction::Tx(bytes) => BusActionView::Tx(bytes@),
            BusAction::Rx(count) => BusActionView::Rx(*count as nat),
            BusAction::Stop => BusActionView::Stop,
        }
    }
}

/// The actions of one atomic exchange, in the order they are issued.
#[derive(Debug, PartialEq, Eq)]
pub struct Transaction {
    pub actions: Vec<BusAction>,
}

impl View for Transaction {
    type V = Seq<BusActionView>;

    open spec fn view(&self) -> Seq<BusActionView> {
        Seq::new(self.actions@.len(), |i: int| self.actions@[i]@)
    }
}

/// What the transport reports of a transaction.
#[derive(Debug, PartialEq, Eq)]
pub enum BusReply {
    /// The transport could not carry the transaction out.
    Failed,
    /// The transaction ran; the bytes are those clocked in, in order.
    Completed(Vec<u8>),
}

/// A reply as a mathematical value.
pub enum BusReplyView {
    Failed,
    Completed(Seq<u8>),
}

impl View for BusReply {
    type V = BusReplyView;

    open spec fn view(&self) -> BusReplyView {
        match self {
            BusReply::Failed => BusReplyView::Failed,
            BusReply::Completed(bytes) => BusReplyView::Completed(bytes@),
        }
    }
}

/// The bytes a reply delivers to a transaction that asked for `count` of
/// them. A reply that failed, or that carries any other number of bytes,
/// delivers nothing: the driver treats both as a transport failure.
pub open spec fn received(reply: BusReplyView, count: nat) -> Option<Seq<u8>> {
    match reply {
        BusReplyView::Completed(bytes) => if bytes.len() == count {
            Some(bytes)
        } else {
            None
        },
        BusReplyView::Failed => None,
    }
}

/// Every start condition of the sequence is followed, somewhere later, by a
/// stop condition.
pub open spec fn well_formed(actions: Seq<BusActionView>) -> bool {
    forall|i: int|
        0 <= i < actions.len() && (#[trigger] actions[i]) is Start ==> exists|j: int|
            i < j < actions.len() && (#[trigger] actions[j]) is Stop
}

/// Number of bytes the sequence asks the transport to clock in.
pub open spec fn bytes_expected(actions: Seq<BusActionView>) -> nat
    decreases actions.len(),
{
    if actions.len() == 0 {
        0
    } else {
        let rest = bytes_expected(actions.drop_last());
        match actions.last() {
            BusActionView::Rx(count) => rest + count,
            _ => rest,
        }
    }
}

/// An addressed read: select `register` in a write-mode exchange with the
/// device, restart in read mode without an intervening stop, clock `count`
/// bytes in, stop.
pub open spec fn addressed_read(register: u8, count: nat) -> Seq<BusActionView> {
    seq![
        BusActionView::Start(address_byte(I2C_ADDRESS, false)),
        BusActionView::Tx(seq![register]),
        BusActionView::Start(address_byte(I2C_ADDRESS, true)),
        BusActionView::Rx(count),
        BusActionView::Stop,
    ]
}

/// Reading one register: the bus is enabled, then one byte is read at
/// `register`.
pub open spec fn register_read_actions(register: u8) -> Seq<BusActionView> {
    seq![BusActionView::EnableI2c] + addressed_read(register, 1)
}

/// Reading the three axes: one burst of six bytes from the first output
/// data register on; the device steps through the registers by itself.
pub open spec fn burst_read_actions() -> Seq<BusActionView> {
    addressed_read(OUT_X_MSB, 6)
}

/// A write-mode exchange: enable the bus, open with `start`, clock `payload`
/// out, stop.
pub open spec fn write_exchange(start: u8, payload: Seq<u8>) -> Seq<BusActionView> {
    seq![
        BusActionView::EnableI2c,
        BusActionView::Start(start),
        BusActionView::Tx(payload),
        BusActionView::Stop,
    ]
}

/// Writing one byte to a register: the exchange is opened with the register
/// address in write mode and carries the data byte alone.
pub open spec fn register_write_actions(address: u8, data: u8) -> Seq<BusActionView> {
    write_exchange(address_byte(address, false), seq![data])
}

/// Rewriting control register 1: the exchange is opened with the device
/// address in write mode and carries the register address and its new value.
pub open spec fn control_write_actions(control: u8) -> Seq<BusActionView> {
    write_exchange(address_byte(I2C_ADDRESS, false), seq![CTRL_REG1, control])
}

impl BusReply {
    /// The single byte of a reply to a one-byte read.
    pub fn single_byte(&self) -> (byte: Option<u8>)
        ensures
            byte == match received(self@, 1) {
                Some(bytes) => Some(bytes[0]),
                None => None::<u8>,
            },
    {
        match self {
            BusReply::Completed(bytes) => {
                if bytes.len() == 1 {
                    Some(bytes[0])
                } else {
                    None
                }
            },
            BusReply::Failed => None,
        }
    }

    /// Whether the reply answers a transaction that reads nothing.
    pub fn acknowledges(&self) -> (ok: bool)
        ensures
            ok == received(self@, 0).is_some(),
    {
        match self {
            BusReply::Completed(bytes) => bytes.len() == 0,
            BusReply::Failed => false,
        }
    }
}

impl Transaction {
    fn read(enable: bool, register: u8, count: usize) -> (transaction: Transaction)
        ensures
            transaction@ == if enable {
                seq![BusActionView::EnableI2c] + addressed_read(register, count as nat)
            } else {
                addressed_read(register, count as nat)
            },
    {
        let mut actions: Vec<BusAction> = Vec::new();
        if enable {
            actions.push(BusAction::EnableI2c);
        }
        let mut selector: Vec<u8> = Vec::new();
        selector.push(register);
        actions.push(BusAction::Start(make_address_byte(I2C_ADDRESS, false)));
        actions.push(BusAction::Tx(selector));
        actions.push(BusAction::Start(make_address_byte(I2C_ADDRESS, true)));
        actions.push(BusAction::Rx(count));
        actions.push(BusAction::Stop);
        let transaction = Transaction { actions };
        proof {
            assert(selector@ =~= seq![register]);
            if enable {
                assert(transaction@ =~= seq![BusActionView::EnableI2c] + addressed_read(
                    register,
                    count as nat,
                ));
            } else {
                assert(transaction@ =~= addressed_read(register, count as nat));
            }
        }
        transaction
    }

    fn write(start: u8, payload: Vec<u8>) -> (transaction: Transaction)
        ensures
            transaction@ == write_exchange(start, payload@),
    {
        let ghost bytes = payload@;
        let mut actions: Vec<BusAction> = Vec::new();
        actions.push(BusAction::EnableI2c);
        actions.push(BusAction::Start(start));
        actions.push(BusAction::Tx(payload));
        actions.push(BusAction::Stop);
        let transaction = Transaction { actions };
        assert(transaction@ =~= write_exchange(start, bytes));
        transaction
    }

    /// The transaction that reads one register.
    pub fn register_read(register: u8) -> (transaction: Transaction)
        ensures
            transaction@ == register_read_actions(register),
    {
        Transaction::read(true, register, 1)
    }

    /// The transaction that reads the three axes in one burst.
    pub fn burst_read() -> (transaction: Transaction)
        ensures
            transaction@ == burst_read_actions(),
    {
        Transaction::read(false, OUT_X_MSB, SAMPLE_BYTES)
    }

    /// The transaction that writes one byte to a register.
    pub fn register_write(address: u8, data: u8) -> (transaction: Transaction)
        ensures
            transaction@ == register_write_actions(address, data),
    {
        let mut payload: Vec<u8> = Vec::new();
        payload.push(data);
        assert(payload@ =~= seq![data]);
        Transaction::write(make_address_byte(address, false), payload)
    }

    /// The transaction that rewrites control register 1.
    pub fn control_write(control: u8) -> (transaction: Transaction)
        ensures
            transaction@ == control_write_actions(control),
    {
        let mut payload: Vec<u8> = Vec::new();
        payload.push(CTRL_REG1);
        payload.push(control);
        assert(payload@ =~= seq![CTRL_REG1, control]);
        Transaction::write(make_address_byte(I2C_ADDRESS, false), payload)
    }
}

} // verus!
