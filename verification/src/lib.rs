//! Register-level driver core for an MMA8452-class three-axis accelerometer
//! on a two-wire serial bus.
//!
//! The crate performs no I/O. Every operation of the driver is a short
//! conversation with the bus: the driver names the next bus transaction,
//! the caller performs it on whatever transport it owns and hands the
//! reply back, and the driver decides what follows.

pub mod bus;
pub mod conversation;
pub mod driver;
pub mod rates;
pub mod registers;
pub mod sample;

pub use bus::{BusAction, BusReply, Transaction};
pub use driver::{Accelerometer, Fault, Mode, Next, Outcome, Stage, Step};
pub use sample::Acceleration;
