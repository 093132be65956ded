//! Abstract two-wire bus capability consumed by the driver core.
//!
//! A [`Transport`] performs an addressed register write of one or two bytes,
//! or a register-pointer write followed by a read of one or two bytes, as a
//! single atomic transaction. Each implementation carries a ghost transcript
//! of the transactions that fully completed; a failed transaction leaves the
//! transcript unchanged. The driver's contracts are all stated over this
//! transcript.
use vstd::prelude::*;

verus! {

/// One completed transaction on the two-wire bus, as the ghost transcript
/// records it. Read variants carry the bytes the sensor returned.
#[derive(Clone, Copy, PartialEq, Eq, Structural, Debug)]
pub enum BusOp {
    /// One-byte write to the register at `reg`.
    Write1 { reg: u8, b0: u8 },
    /// Two-byte (big-endian) write to the register at `reg`.
    Write2 { reg: u8, b0: u8, b1: u8 },
    /// Register-pointer write of `reg` followed by a one-byte read that
    /// returned `b0`.
    Read1 { reg: u8, b0: u8 },
    /// Register-pointer write of `reg` followed by a two-byte read that
    /// returned `b0`, `b1` (big-endian).
    Read2 { reg: u8, b0: u8, b1: u8 },
}

/// Failure of a single bus transaction.
#[derive(Clone, Copy, PartialEq, Eq, Structural, Debug)]
pub enum BusError {
    /// The addressed device did not acknowledge the transaction.
    NoAcknowledge,
    /// Any other bus-level failure.
    Other,
}

/// An addressed register transport: the electrical bus, already bound to the
/// sensor's device address. A transaction either fully completes, extending
/// the transcript by exactly one operation, or fails and leaves it unchanged.
pub trait Transport: Sized {
    /// Ghost transcript of the transactions that completed so far.
    spec fn ops(&self) -> Seq<BusOp>;

    /// Write one byte to the register at `reg`.
    fn write1(&mut self, reg: u8, b0: u8) -> (r: Result<(), BusError>)
        ensures
            r is Ok ==> final(self).ops() == old(self).ops().push((BusOp::Write1 { reg, b0 })),
            r is Err ==> final(self).ops() == old(self).ops(),
    ;

    /// Write two bytes, big-endian, to the register at `reg`.
    fn write2(&mut self, reg: u8, b0: u8, b1: u8) -> (r: Result<(), BusError>)
        ensures
            r is Ok ==> final(self).ops() == old(self).ops().push((BusOp::Write2 { reg, b0, b1 })),
            r is Err ==> final(self).ops() == old(self).ops(),
    ;

    /// Read one byte from the register at `reg`.
    fn read1(&mut self, reg: u8) -> (r: Result<u8, BusError>)
        ensures
            r matches Ok(b0) ==> final(self).ops() == old(self).ops().push((BusOp::Read1 { reg, b0 })),
            r is Err ==> final(self).ops() == old(self).ops(),
    ;

    /// Read two bytes, big-endian, from the register at `reg`.
    fn read2(&mut self, reg: u8) -> (r: Result<(u8, u8), BusError>)
        ensures
            r matches Ok((b0, b1)) ==> final(self).ops() == old(self).ops().push((BusOp::Read2 { reg, b0, b1 })),
            r is Err ==> final(self).ops() == old(self).ops(),
    ;
}

/// A delay capability. Implementations carry a ghost transcript of the waits
/// they performed, so that a caller can state which waits a protocol issues.
pub trait Delay: Sized {
    /// Ghost transcript of the waits performed so far, in milliseconds.
    spec fn delays(&self) -> Seq<u32>;

    /// Wait for `ms` milliseconds.
    fn delay_ms(&mut self, ms: u32)
        ensures
            final(self).delays() == old(self).delays().push(ms),
    ;
}

} // verus!
