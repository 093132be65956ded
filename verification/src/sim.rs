//! Scripted transport and recording delay.
//!
//! [`ScriptedBus`] plays the device's side of the bus from a fixed script,
//! one step per attempted transaction, and records every transaction that
//! completed. It is how the driver's transcript contracts are exercised at
//! run time: a test scripts the sensor's replies, runs driver operations,
//! and compares the recorded log against the transactions the contracts
//! promise.
use vstd::prelude::*;

use crate::transport::BusError;
use crate::transport::BusOp;
use crate::transport::Delay;
use crate::transport::Transport;

verus! {

/// What the scripted device does with the next attempted transaction.
#[derive(Clone, Copy, PartialEq, Eq, Structural, Debug)]
pub enum ScriptStep {
    /// Acknowledge a write.
    AckWrite,
    /// Answer a one-byte read with `b0`.
    Reply1 { b0: u8 },
    /// Answer a two-byte read with `b0`, `b1`.
    Reply2 { b0: u8, b1: u8 },
    /// Do not acknowledge the transaction.
    Nack,
    /// Fail the transaction some other way.
    Fault,
}

/// A transport that answers from a fixed script and logs every completed
/// transaction. Each attempted transaction consumes one script step; a
/// step that does not fit the attempted transaction (a read reply for a
/// write, or the wrong width), and an exhausted script, fail the
/// transaction.
pub struct ScriptedBus {
    script: Vec<ScriptStep>,
    cursor: usize,
    log: Vec<BusOp>,
}

impl ScriptedBus {
    /// The script steps not yet consumed.
    pub closed spec fn remaining(&self) -> Seq<ScriptStep> {
        if self.cursor <= self.script@.len() {
            self.script@.skip(self.cursor as int)
        } else {
            Seq::<ScriptStep>::empty()
        }
    }

    /// The script step the next attempted transaction will consume.
    pub closed spec fn next_step_spec(&self) -> Option<ScriptStep> {
        if self.remaining().len() > 0 {
            Some(self.remaining()[0])
        } else {
            None
        }
    }

    /// A bus that will play out `script`, with an empty transcript.
    pub fn new(script: Vec<ScriptStep>) -> (r: ScriptedBus)
        ensures
            r.ops() == Seq::<BusOp>::empty(),
            r.remaining() == script@,
    {
        let r = ScriptedBus { script, cursor: 0, log: Vec::new() };
        proof {
            assert(r.remaining() =~= r.script@);
        }
        r
    }

    /// The completed transactions, oldest first: the run-time image of the
    /// ghost transcript.
    pub fn recorded(&self) -> (r: &Vec<BusOp>)
        ensures
            r@ == self.ops(),
    {
        &self.log
    }

    /// The next script step, if any, advancing the cursor. Leaves the log
    /// unchanged.
    fn next_step(&mut self) -> (r: Option<ScriptStep>)
        ensures
            final(self).log == old(self).log,
            r == old(self).next_step_spec(),
            old(self).remaining().len() > 0 ==> final(self).remaining()
                == old(self).remaining().skip(1),
            old(self).remaining().len() == 0 ==> final(self).remaining() == old(self).remaining(),
    {
        if self.cursor < self.script.len() {
            let step = self.script[self.cursor];
            self.cursor = self.cursor + 1;
            proof {
                assert(self.remaining() =~= old(self).remaining().skip(1));
            }
            Some(step)
        } else {
            None
        }
    }
}

impl Transport for ScriptedBus {
    closed spec fn ops(&self) -> Seq<BusOp> {
        self.log@
    }

    fn write1(&mut self, reg: u8, b0: u8) -> (r: Result<(), BusError>)
        ensures
            r is Ok <==> old(self).next_step_spec() == Some(ScriptStep::AckWrite),
            r == Err::<(), BusError>(BusError::NoAcknowledge) <==> old(self).next_step_spec()
                == Some(ScriptStep::Nack),
            old(self).remaining().len() > 0 ==> final(self).remaining()
                == old(self).remaining().skip(1),
            old(self).remaining().len() == 0 ==> final(self).remaining() == old(self).remaining(),
    {
        match self.next_step() {
            Some(ScriptStep::AckWrite) => {
                self.log.push(BusOp::Write1 { reg, b0 });
                Ok(())
            }
            Some(ScriptStep::Nack) => Err(BusError::NoAcknowledge),
            _ => Err(BusError::Other),
        }
    }

    fn write2(&mut self, reg: u8, b0: u8, b1: u8) -> (r: Result<(), BusError>)
        ensures
            r is Ok <==> old(self).next_step_spec() == Some(ScriptStep::AckWrite),
            r == Err::<(), BusError>(BusError::NoAcknowledge) <==> old(self).next_step_spec()
                == Some(ScriptStep::Nack),
            old(self).remaining().len() > 0 ==> final(self).remaining()
                == old(self).remaining().skip(1),
            old(self).remaining().len() == 0 ==> final(self).remaining() == old(self).remaining(),
    {
        match self.next_step() {
            Some(ScriptStep::AckWrite) => {
                self.log.push(BusOp::Write2 { reg, b0, b1 });
                Ok(())
            }
            Some(ScriptStep::Nack) => Err(BusError::NoAcknowledge),
            _ => Err(BusError::Other),
        }
    }

    fn read1(&mut self, reg: u8) -> (r: Result<u8, BusError>)
        ensures
            (match old(self).next_step_spec() {
                Some(ScriptStep::Reply1 { b0 }) => r == Ok::<u8, BusError>(b0),
                Some(ScriptStep::Nack) => r == Err::<u8, BusError>(BusError::NoAcknowledge),
                _ => r == Err::<u8, BusError>(BusError::Other),
            }),
            old(self).remaining().len() > 0 ==> final(self).remaining()
                == old(self).remaining().skip(1),
            old(self).remaining().len() == 0 ==> final(self).remaining() == old(self).remaining(),
    {
        match self.next_step() {
            Some(ScriptStep::Reply1 { b0 }) => {
                self.log.push(BusOp::Read1 { reg, b0 });
                Ok(b0)
            }
            Some(ScriptStep::Nack) => Err(BusError::NoAcknowledge),
            _ => Err(BusError::Other),
        }
    }

    fn read2(&mut self, reg: u8) -> (r: Result<(u8, u8), BusError>)
        ensures
            (match old(self).next_step_spec() {
                Some(ScriptStep::Reply2 { b0, b1 }) => r == Ok::<(u8, u8), BusError>((b0, b1)),
                Some(ScriptStep::Nack) => r == Err::<(u8, u8), BusError>(BusError::NoAcknowledge),
                _ => r == Err::<(u8, u8), BusError>(BusError::Other),
            }),
            old(self).remaining().len() > 0 ==> final(self).remaining()
                == old(self).remaining().skip(1),
            old(self).remaining().len() == 0 ==> final(self).remaining() == old(self).remaining(),
    {
        match self.next_step() {
            Some(ScriptStep::Reply2 { b0, b1 }) => {
                self.log.push(BusOp::Read2 { reg, b0, b1 });
                Ok((b0, b1))
            }
            Some(ScriptStep::Nack) => Err(BusError::NoAcknowledge),
            _ => Err(BusError::Other),
        }
    }
}

/// A delay that waits for no time at all and only records what was asked
/// of it.
pub struct RecordedDelay {
    log: Vec<u32>,
}

impl RecordedDelay {
    /// A recorder with an empty transcript.
    pub fn new() -> (r: RecordedDelay)
        ensures
            r.delays() == Seq::<u32>::empty(),
    {
        RecordedDelay { log: Vec::new() }
    }

    /// The waits performed so far, in milliseconds, oldest first.
    pub fn recorded(&self) -> (r: &Vec<u32>)
        ensures
            r@ == self.delays(),
    {
        &self.log
    }
}

impl Delay for RecordedDelay {
    closed spec fn delays(&self) -> Seq<u32> {
        self.log@
    }

    fn delay_ms(&mut self, ms: u32) {
        self.log.push(ms);
    }
}

} // verus!
