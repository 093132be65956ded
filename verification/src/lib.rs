//! Driver core for a single-chip NDIR CO2 sensor reached over a two-wire
//! serial bus.
//!
//! The library encodes and decodes the sensor's packed bitfield registers,
//! composes register transactions through an abstract [`transport::Transport`]
//! capability, and runs the forced-calibration sequencing protocol. Every
//! operation's effect on the bus is stated over a ghost transcript of
//! completed transactions.
use vstd::prelude::*;

pub mod calib;
pub mod driver;
pub mod regs;
pub mod sim;
pub mod transport;

pub use driver::PasCo2;
pub use transport::BusError;

verus! {

/// Seven-bit bus address of the sensor.
pub const ADDRESS: u8 = 0x28;

/// Error returned by driver operations.
#[derive(Clone, Copy, PartialEq, Eq, Structural, Debug)]
pub enum Error {
    /// Failure reported by the bus transport.
    Interface(BusError),
    /// The sensor answered with bytes that have no defined meaning.
    Response(ResponseError),
    /// The calibration poll loop exhausted its retry budget without the
    /// sensor ever reporting that data was ready.
    Timeout,
}

/// Error raised when a register read back from the sensor cannot be decoded.
#[derive(Clone, Copy, PartialEq, Eq, Structural, Debug)]
pub enum ResponseError {
    /// The register's reserved bit patterns carry no defined meaning.
    InvalidRegisterValue,
}

} // verus!
