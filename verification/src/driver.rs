//! Driver core: one operation per sensor capability, each a composition of
//! register codec and bus transport, with its effect on the bus transcript
//! stated in its contract.
use vstd::prelude::*;

use crate::calib::all_poll_waits;
use crate::calib::calib_aborted;
use crate::calib::calib_exit_op;
use crate::calib::calib_head;
use crate::calib::calib_success;
use crate::calib::calib_waits;
use crate::calib::complete_polls;
use crate::calib::count_unready;
use crate::calib::lemma_abort_poll_phase;
use crate::calib::lemma_abort_poll_phase_ready;
use crate::calib::lemma_abort_prefix;
use crate::calib::lemma_round_count;
use crate::calib::lemma_success_counts;
use crate::calib::op_is_co2_read;
use crate::calib::op_is_status_not_ready;
use crate::calib::op_is_status_ready;
use crate::calib::partial_polls;
use crate::calib::wait_run;
use crate::regs::BaselineOffsetCompensation;
use crate::regs::InterruptConfig;
use crate::regs::MeasurementMode;
use crate::regs::MeasurementStatus;
use crate::regs::OperatingMode;
use crate::regs::Register;
use crate::regs::SoftReset;
use crate::regs::Status;
use crate::transport::BusError;
use crate::transport::BusOp;
use crate::transport::Delay;
use crate::transport::Transport;
use crate::Error;

verus! {

/// How many status polls one calibration round may attempt before the
/// driver gives up and fails with a timeout.
pub const MAX_POLL_ATTEMPTS: u32 = 100_000;

/// High byte of a 16-bit register value, big-endian.
pub open spec fn spec_be_hi(v: int) -> u8 {
    (v / 256) as u8
}

/// Low byte of a 16-bit register value, big-endian.
pub open spec fn spec_be_lo(v: int) -> u8 {
    (v % 256) as u8
}

/// The signed 16-bit value carried by two big-endian register bytes.
pub open spec fn spec_i16_from_be(b0: u8, b1: u8) -> int {
    if b0 < 128 {
        b0 * 256 + b1
    } else {
        b0 * 256 + b1 - 0x1_0000
    }
}

/// The unsigned 16-bit value carried by two big-endian register bytes.
pub open spec fn spec_u16_from_be(b0: u8, b1: u8) -> int {
    b0 * 256 + b1
}

/// What the calibration sequencer does after one status poll.
#[derive(Clone, Copy, PartialEq, Eq, Structural, Debug)]
pub enum PollStep {
    /// Data is ready: read the sample and close the round.
    Sample,
    /// Nothing yet, or the poll was not acknowledged: back off and poll
    /// again.
    Retry,
    /// Any other failure: abort the whole sequence with this error.
    Abort(Error),
}

/// The sequencer's decision rule after one status poll.
pub open spec fn spec_poll_step(outcome: Result<MeasurementStatus, Error>) -> PollStep {
    match outcome {
        Ok(status) => if status.data_ready {
            PollStep::Sample
        } else {
            PollStep::Retry
        },
        Err(Error::Interface(BusError::NoAcknowledge)) => PollStep::Retry,
        Err(e) => PollStep::Abort(e),
    }
}

/// Decide what the calibration sequencer does after one status poll: read
/// the sample if data is ready, retry after nothing yet or after a
/// no-acknowledge (transient while polling), abort on every other
/// failure. Both the library's sequencer and any host that re-runs the
/// poll loop around its own suspension points take the decision from
/// here.
pub fn poll_step(outcome: Result<MeasurementStatus, Error>) -> (d: PollStep)
    ensures
        d == spec_poll_step(outcome),
{
    match outcome {
        Ok(status) => if status.data_ready {
            PollStep::Sample
        } else {
            PollStep::Retry
        },
        Err(Error::Interface(BusError::NoAcknowledge)) => PollStep::Retry,
        Err(e) => PollStep::Abort(e),
    }
}

/// Driver for the sensor: owns the bus transport exclusively and composes
/// register transactions through the codec. No register value is cached;
/// every read issues a bus transaction.
pub struct PasCo2<T: Transport> {
    bus: T,
}

impl<T: Transport> PasCo2<T> {
    /// The transcript of bus transactions this driver's transport has
    /// completed.
    pub closed spec fn ops(&self) -> Seq<BusOp> {
        self.bus.ops()
    }

    /// Create a new driver instance, taking ownership of the transport.
    pub fn new(bus: T) -> (r: PasCo2<T>)
        ensures
            r.ops() == bus.ops(),
    {
        PasCo2 { bus }
    }

    /// Release the driver and hand the transport back.
    pub fn free(self) -> (r: T)
        ensures
            r.ops() == self.ops(),
    {
        self.bus
    }

    /// Write one byte to a register.
    fn write_reg1(&mut self, register: Register, b0: u8) -> (r: Result<(), Error>)
        ensures
            r is Ok ==> final(self).ops() == old(self).ops().push(
                (BusOp::Write1 { reg: register.spec_address(), b0 }),
            ),
            r matches Err(e) ==> final(self).ops() == old(self).ops() && e matches Error::Interface(_),
    {
        match self.bus.write1(register.address(), b0) {
            Ok(()) => Ok(()),
            Err(e) => Err(Error::Interface(e)),
        }
    }

    /// Write two bytes, big-endian, to a register.
    fn write_reg2(&mut self, register: Register, b0: u8, b1: u8) -> (r: Result<(), Error>)
        ensures
            r is Ok ==> final(self).ops() == old(self).ops().push(
                (BusOp::Write2 { reg: register.spec_address(), b0, b1 }),
            ),
            r matches Err(e) ==> final(self).ops() == old(self).ops() && e matches Error::Interface(_),
    {
        match self.bus.write2(register.address(), b0, b1) {
            Ok(()) => Ok(()),
            Err(e) => Err(Error::Interface(e)),
        }
    }

    /// Read one byte from a register.
    fn read_reg_u8(&mut self, register: Register) -> (r: Result<u8, Error>)
        ensures
            r matches Ok(b0) ==> final(self).ops() == old(self).ops().push(
                (BusOp::Read1 { reg: register.spec_address(), b0 }),
            ),
            r matches Err(e) ==> final(self).ops() == old(self).ops() && e matches Error::Interface(_),
    {
        match self.bus.read1(register.address()) {
            Ok(b0) => Ok(b0),
            Err(e) => Err(Error::Interface(e)),
        }
    }

    /// Read a two-byte register as an unsigned big-endian value.
    fn read_reg_u16(&mut self, register: Register) -> (r: Result<u16, Error>)
        ensures
            r matches Ok(v) ==> exists |b0: u8, b1: u8|
                #![auto]
                final(self).ops() == old(self).ops().push(
                    (BusOp::Read2 { reg: register.spec_address(), b0, b1 }),
                ) && v == spec_u16_from_be(b0, b1),
            r matches Err(e) ==> final(self).ops() == old(self).ops() && e matches Error::Interface(_),
    {
        match self.bus.read2(register.address()) {
            Ok((b0, b1)) => {
                let v: u16 = (b0 as u16) * 256 + (b1 as u16);
                proof {
                    assert(v == spec_u16_from_be(b0, b1));
                }
                Ok(v)
            }
            Err(e) => Err(Error::Interface(e)),
        }
    }

    /// Read a two-byte register as a signed big-endian value.
    fn read_reg_i16(&mut self, register: Register) -> (r: Result<i16, Error>)
        ensures
            r matches Ok(v) ==> exists |b0: u8, b1: u8|
                #![auto]
                final(self).ops() == old(self).ops().push(
                    (BusOp::Read2 { reg: register.spec_address(), b0, b1 }),
                ) && v == spec_i16_from_be(b0, b1),
            r matches Err(e) ==> final(self).ops() == old(self).ops() && e matches Error::Interface(_),
    {
        match self.bus.read2(register.address()) {
            Ok((b0, b1)) => {
                let v: u16 = (b0 as u16) * 256 + (b1 as u16);
                let signed: i16 = if v < 0x8000 {
                    v as i16
                } else {
                    ((v as i32) - 0x1_0000) as i16
                };
                proof {
                    assert(signed == spec_i16_from_be(b0, b1));
                }
                Ok(signed)
            }
            Err(e) => Err(Error::Interface(e)),
        }
    }

    /// Read and decode the sensor status register.
    pub fn get_status(&mut self) -> (r: Result<Status, Error>)
        ensures
            r matches Ok(s) ==> exists |b0: u8|
                #![auto]
                final(self).ops() == old(self).ops().push(
                    (BusOp::Read1 { reg: Register::SensorStatus.spec_address(), b0 }),
                ) && s == Status::spec_from(b0),
            r matches Err(e) ==> final(self).ops() == old(self).ops() && e matches Error::Interface(_),
    {
        match self.read_reg_u8(Register::SensorStatus) {
            Ok(b0) => Ok(Status::from(b0)),
            Err(e) => Err(e),
        }
    }

    /// Clear the temperature, voltage and communication error flags with a
    /// single write of the three clear bitmasks OR-ed together; no read is
    /// issued first.
    pub fn clear_status(&mut self) -> (r: Result<(), Error>)
        ensures
            r is Ok ==> final(self).ops() == old(self).ops().push(
                (BusOp::Write1 { reg: Register::SensorStatus.spec_address(), b0: 0b0000_0111 }),
            ),
            r matches Err(e) ==> final(self).ops() == old(self).ops() && e matches Error::Interface(_),
    {
        let mask: u8 = Status::clear_temperature_error() | Status::clear_voltage_error()
            | Status::clear_communication_error();
        assert(mask == 0b0000_0111u8) by (bit_vector)
            requires
                mask == 0b0000_0100u8 | 0b0000_0010u8 | 0b0000_0001u8,
        ;
        self.write_reg1(Register::SensorStatus, mask)
    }

    /// Clear the temperature error flag: a single write of its clear
    /// bitmask.
    pub fn clear_temperature_error(&mut self) -> (r: Result<(), Error>)
        ensures
            r is Ok ==> final(self).ops() == old(self).ops().push(
                (BusOp::Write1 { reg: Register::SensorStatus.spec_address(), b0: 0b0000_0100 }),
            ),
            r matches Err(e) ==> final(self).ops() == old(self).ops() && e matches Error::Interface(_),
    {
        self.write_reg1(Register::SensorStatus, Status::clear_temperature_error())
    }

    /// Clear the voltage error flag: a single write of its clear bitmask.
    pub fn clear_voltage_error(&mut self) -> (r: Result<(), Error>)
        ensures
            r is Ok ==> final(self).ops() == old(self).ops().push(
                (BusOp::Write1 { reg: Register::SensorStatus.spec_address(), b0: 0b0000_0010 }),
            ),
            r matches Err(e) ==> final(self).ops() == old(self).ops() && e matches Error::Interface(_),
    {
        self.write_reg1(Register::SensorStatus, Status::clear_voltage_error())
    }

    /// Clear the communication error flag: a single write of its clear
    /// bitmask.
    pub fn clear_communication_error(&mut self) -> (r: Result<(), Error>)
        ensures
            r is Ok ==> final(self).ops() == old(self).ops().push(
                (BusOp::Write1 { reg: Register::SensorStatus.spec_address(), b0: 0b0000_0001 }),
            ),
            r matches Err(e) ==> final(self).ops() == old(self).ops() && e matches Error::Interface(_),
    {
        self.write_reg1(Register::SensorStatus, Status::clear_communication_error())
    }

    /// Set the time between two measurements in continuous mode, in
    /// seconds. The sensor accepts 5 through 4095; the value is written
    /// big-endian.
    pub fn set_measurement_period(&mut self, period: i16) -> (r: Result<(), Error>)
        requires
            5 <= period <= 4095,
        ensures
            r is Ok ==> final(self).ops() == old(self).ops().push(
                (BusOp::Write2 {
                    reg: Register::MeasurementRate.spec_address(),
                    b0: spec_be_hi(period as int),
                    b1: spec_be_lo(period as int),
                }),
            ),
            r matches Err(e) ==> final(self).ops() == old(self).ops() && e matches Error::Interface(_),
    {
        let v: u16 = period as u16;
        self.write_reg2(Register::MeasurementRate, (v / 256) as u8, (v % 256) as u8)
    }

    /// Read the measurement period, in seconds.
    pub fn get_measurement_period(&mut self) -> (r: Result<i16, Error>)
        ensures
            r matches Ok(v) ==> exists |b0: u8, b1: u8|
                #![auto]
                final(self).ops() == old(self).ops().push(
                    (BusOp::Read2 { reg: Register::MeasurementRate.spec_address(), b0, b1 }),
                ) && v == spec_i16_from_be(b0, b1),
            r matches Err(e) ==> final(self).ops() == old(self).ops() && e matches Error::Interface(_),
    {
        self.read_reg_i16(Register::MeasurementRate)
    }

    /// Encode and write the measurement mode register.
    pub fn set_measurement_mode(&mut self, mode: MeasurementMode) -> (r: Result<(), Error>)
        ensures
            r is Ok ==> final(self).ops() == old(self).ops().push(
                (BusOp::Write1 { reg: Register::MeasurementMode.spec_address(), b0: mode.spec_encode() }),
            ),
            r matches Err(e) ==> final(self).ops() == old(self).ops() && e matches Error::Interface(_),
    {
        self.write_reg1(Register::MeasurementMode, mode.encode())
    }

    /// Read and decode the measurement mode register.
    pub fn get_measurement_mode(&mut self) -> (r: Result<MeasurementMode, Error>)
        ensures
            r matches Ok(m) ==> exists |b0: u8|
                #![auto]
                final(self).ops() == old(self).ops().push(
                    (BusOp::Read1 { reg: Register::MeasurementMode.spec_address(), b0 }),
                ) && m == MeasurementMode::spec_from(b0),
            r matches Err(e) ==> final(self).ops() == old(self).ops() && e matches Error::Interface(_),
    {
        match self.read_reg_u8(Register::MeasurementMode) {
            Ok(b0) => Ok(MeasurementMode::from(b0)),
            Err(e) => Err(e),
        }
    }

    /// Start a single measurement: read the current measurement mode, set
    /// only its operating mode to single shot, and write it back. The PWM
    /// and baseline offset compensation configuration is preserved.
    ///
    /// The caller is responsible for waiting the sensor's measurement
    /// duration and checking `data_ready` before reading the result; the
    /// driver does not enforce that ordering.
    pub fn start_measurement(&mut self) -> (r: Result<(), Error>)
        ensures
            r is Ok ==> exists |b0: u8|
                #![auto]
                final(self).ops() == old(self).ops().push(
                    (BusOp::Read1 { reg: Register::MeasurementMode.spec_address(), b0 }),
                ).push(
                    (BusOp::Write1 {
                        reg: Register::MeasurementMode.spec_address(),
                        b0: MeasurementMode::spec_from(b0).with_operating_mode(
                            OperatingMode::SingleShot,
                        ).spec_encode(),
                    }),
                ),
            r matches Err(e) ==> {
                &&& e matches Error::Interface(_)
                &&& (final(self).ops() == old(self).ops() || exists |b0: u8|
                    #![auto]
                    final(self).ops() == old(self).ops().push(
                        (BusOp::Read1 { reg: Register::MeasurementMode.spec_address(), b0 }),
                    ))
            },
    {
        let mut mode = match self.get_measurement_mode() {
            Ok(m) => m,
            Err(e) => {
                return Err(e);
            }
        };
        mode.operating_mode = OperatingMode::SingleShot;
        self.set_measurement_mode(mode)
    }

    /// Read the current CO2 concentration, in ppm.
    ///
    /// This is a raw register read: the caller is responsible for having
    /// started a measurement and observed `data_ready`.
    pub fn get_co2_ppm(&mut self) -> (r: Result<i16, Error>)
        ensures
            r matches Ok(v) ==> exists |b0: u8, b1: u8|
                #![auto]
                final(self).ops() == old(self).ops().push(
                    (BusOp::Read2 { reg: Register::Co2Ppm.spec_address(), b0, b1 }),
                ) && v == spec_i16_from_be(b0, b1),
            r matches Err(e) ==> final(self).ops() == old(self).ops() && e matches Error::Interface(_),
    {
        self.read_reg_i16(Register::Co2Ppm)
    }

    /// Read and decode the measurement status register.
    pub fn get_measurement_status(&mut self) -> (r: Result<MeasurementStatus, Error>)
        ensures
            r matches Ok(s) ==> exists |b0: u8|
                #![auto]
                final(self).ops() == old(self).ops().push(
                    (BusOp::Read1 { reg: Register::MeasurementStatus.spec_address(), b0 }),
                ) && s == MeasurementStatus::spec_from(b0),
            r matches Err(e) ==> final(self).ops() == old(self).ops() && e matches Error::Interface(_),
    {
        match self.read_reg_u8(Register::MeasurementStatus) {
            Ok(b0) => Ok(MeasurementStatus::from(b0)),
            Err(e) => Err(e),
        }
    }

    /// Clear the interrupt active and alarm flags: two writes of the
    /// individual clear bitmasks, interrupt active first, stopping on a
    /// failing write; no read is issued first.
    pub fn clear_measurement_status(&mut self) -> (r: Result<(), Error>)
        ensures
            r is Ok ==> final(self).ops() == old(self).ops().push(
                (BusOp::Write1 { reg: Register::MeasurementStatus.spec_address(), b0: 0b0000_0100 }),
            ).push(
                (BusOp::Write1 { reg: Register::MeasurementStatus.spec_address(), b0: 0b0000_0010 }),
            ),
            r matches Err(e) ==> {
                &&& e matches Error::Interface(_)
                &&& (final(self).ops() == old(self).ops() || final(self).ops() == old(self).ops().push(
                    (BusOp::Write1 { reg: Register::MeasurementStatus.spec_address(), b0: 0b0000_0100 }),
                ))
            },
    {
        match self.clear_int_active() {
            Ok(()) => (),
            Err(e) => {
                return Err(e);
            }
        }
        self.clear_alarm()
    }

    /// Clear the interrupt active flag: a single write of its clear
    /// bitmask.
    pub fn clear_int_active(&mut self) -> (r: Result<(), Error>)
        ensures
            r is Ok ==> final(self).ops() == old(self).ops().push(
                (BusOp::Write1 { reg: Register::MeasurementStatus.spec_address(), b0: 0b0000_0100 }),
            ),
            r matches Err(e) ==> final(self).ops() == old(self).ops() && e matches Error::Interface(_),
    {
        self.write_reg1(Register::MeasurementStatus, MeasurementStatus::clear_int_active())
    }

    /// Clear the alarm flag: a single write of its clear bitmask.
    pub fn clear_alarm(&mut self) -> (r: Result<(), Error>)
        ensures
            r is Ok ==> final(self).ops() == old(self).ops().push(
                (BusOp::Write1 { reg: Register::MeasurementStatus.spec_address(), b0: 0b0000_0010 }),
            ),
            r matches Err(e) ==> final(self).ops() == old(self).ops() && e matches Error::Interface(_),
    {
        self.write_reg1(Register::MeasurementStatus, MeasurementStatus::clear_alarm())
    }

    /// Encode and write the interrupt configuration register.
    pub fn set_interrupt_config(&mut self, config: InterruptConfig) -> (r: Result<(), Error>)
        ensures
            r is Ok ==> final(self).ops() == old(self).ops().push(
                (BusOp::Write1 { reg: Register::InterruptConfig.spec_address(), b0: config.spec_encode() }),
            ),
            r matches Err(e) ==> final(self).ops() == old(self).ops() && e matches Error::Interface(_),
    {
        self.write_reg1(Register::InterruptConfig, config.encode())
    }

    /// Read and decode the interrupt configuration register. Fails with a
    /// response error if the byte read back carries one of the reserved
    /// function codes 5 through 7.
    pub fn get_interrupt_config(&mut self) -> (r: Result<InterruptConfig, Error>)
        ensures
            r matches Ok(c) ==> exists |b0: u8|
                #![auto]
                final(self).ops() == old(self).ops().push(
                    (BusOp::Read1 { reg: Register::InterruptConfig.spec_address(), b0 }),
                ) && InterruptConfig::spec_decodable(b0) && c == InterruptConfig::spec_from(b0),
            r matches Err(e) ==> match e {
                Error::Interface(_) => final(self).ops() == old(self).ops(),
                Error::Response(re) => re == crate::ResponseError::InvalidRegisterValue
                    && exists |b0: u8|
                    #![auto]
                    final(self).ops() == old(self).ops().push(
                        (BusOp::Read1 { reg: Register::InterruptConfig.spec_address(), b0 }),
                    ) && !InterruptConfig::spec_decodable(b0),
                Error::Timeout => false,
            },
    {
        let b0 = match self.read_reg_u8(Register::InterruptConfig) {
            Ok(b0) => b0,
            Err(e) => {
                return Err(e);
            }
        };
        match InterruptConfig::try_from(b0) {
            Ok(c) => Ok(c),
            Err(re) => Err(Error::Response(re)),
        }
    }

    /// Set the alarm threshold, in ppm. The wire format is signed, but only
    /// positive thresholds are meaningful.
    pub fn set_alarm_threshold(&mut self, threshold_ppm: i16) -> (r: Result<(), Error>)
        requires
            threshold_ppm > 0,
        ensures
            r is Ok ==> final(self).ops() == old(self).ops().push(
                (BusOp::Write2 {
                    reg: Register::AlarmThreshold.spec_address(),
                    b0: spec_be_hi(threshold_ppm as int),
                    b1: spec_be_lo(threshold_ppm as int),
                }),
            ),
            r matches Err(e) ==> final(self).ops() == old(self).ops() && e matches Error::Interface(_),
    {
        let v: u16 = threshold_ppm as u16;
        self.write_reg2(Register::AlarmThreshold, (v / 256) as u8, (v % 256) as u8)
    }

    /// Read the alarm threshold, in ppm.
    pub fn get_alarm_threshold(&mut self) -> (r: Result<i16, Error>)
        ensures
            r matches Ok(v) ==> exists |b0: u8, b1: u8|
                #![auto]
                final(self).ops() == old(self).ops().push(
                    (BusOp::Read2 { reg: Register::AlarmThreshold.spec_address(), b0, b1 }),
                ) && v == spec_i16_from_be(b0, b1),
            r matches Err(e) ==> final(self).ops() == old(self).ops() && e matches Error::Interface(_),
    {
        self.read_reg_i16(Register::AlarmThreshold)
    }

    /// Set the pressure compensation reference, in hPa. The sensor accepts
    /// 750 through 1150.
    pub fn set_pressure_compensation(&mut self, pressure: u16) -> (r: Result<(), Error>)
        requires
            750 <= pressure <= 1150,
        ensures
            r is Ok ==> final(self).ops() == old(self).ops().push(
                (BusOp::Write2 {
                    reg: Register::PressureReference.spec_address(),
                    b0: spec_be_hi(pressure as int),
                    b1: spec_be_lo(pressure as int),
                }),
            ),
            r matches Err(e) ==> final(self).ops() == old(self).ops() && e matches Error::Interface(_),
    {
        self.write_reg2(Register::PressureReference, (pressure / 256) as u8, (pressure % 256) as u8)
    }

    /// Read the pressure compensation reference, in hPa.
    pub fn get_pressure_compensation(&mut self) -> (r: Result<u16, Error>)
        ensures
            r matches Ok(v) ==> exists |b0: u8, b1: u8|
                #![auto]
                final(self).ops() == old(self).ops().push(
                    (BusOp::Read2 { reg: Register::PressureReference.spec_address(), b0, b1 }),
                ) && v == spec_u16_from_be(b0, b1),
            r matches Err(e) ==> final(self).ops() == old(self).ops() && e matches Error::Interface(_),
    {
        self.read_reg_u16(Register::PressureReference)
    }

    /// Set the automatic baseline offset compensation reference, in ppm.
    /// The sensor accepts 350 through 900.
    pub fn set_aboc(&mut self, aboc: i16) -> (r: Result<(), Error>)
        requires
            350 <= aboc <= 900,
        ensures
            r is Ok ==> final(self).ops() == old(self).ops().push(
                (BusOp::Write2 {
                    reg: Register::CalibrationReference.spec_address(),
                    b0: spec_be_hi(aboc as int),
                    b1: spec_be_lo(aboc as int),
                }),
            ),
            r matches Err(e) ==> final(self).ops() == old(self).ops() && e matches Error::Interface(_),
    {
        let v: u16 = aboc as u16;
        self.write_reg2(Register::CalibrationReference, (v / 256) as u8, (v % 256) as u8)
    }

    /// Read the automatic baseline offset compensation reference, in ppm.
    pub fn get_aboc(&mut self) -> (r: Result<i16, Error>)
        ensures
            r matches Ok(v) ==> exists |b0: u8, b1: u8|
                #![auto]
                final(self).ops() == old(self).ops().push(
                    (BusOp::Read2 { reg: Register::CalibrationReference.spec_address(), b0, b1 }),
                ) && v == spec_i16_from_be(b0, b1),
            r matches Err(e) ==> final(self).ops() == old(self).ops() && e matches Error::Interface(_),
    {
        self.read_reg_i16(Register::CalibrationReference)
    }

    /// Run the forced compensation sequence against the reference
    /// concentration `calibration_value`: force idle mode, configure a
    /// ten-second cadence, write the reference, enable forced compensation
    /// in continuous mode, take three readings (each by polling the
    /// measurement status with a 100 ms backoff until data is ready),
    /// settle for a second, and force idle mode again, preserving the rest
    /// of the configuration throughout.
    ///
    /// A no-acknowledge while polling the status is transient and is
    /// retried; every other transport failure aborts the sequence
    /// immediately, leaving the sensor in whatever mode it reached. A
    /// round that exhausts [`MAX_POLL_ATTEMPTS`] status polls fails with
    /// a timeout. The settle wait before the closing idle write is an
    /// empirical workaround: the sensor misbehaves without it, for reasons
    /// its documentation does not give. The calibration result is not
    /// committed to non-volatile memory: it stays volatile unless the
    /// caller persists it explicitly through a soft reset command.
    #[verifier::loop_isolation(false)]
    #[verifier::rlimit(100)]
    pub fn do_forced_compensation<D: Delay>(
        &mut self,
        calibration_value: i16,
        delay: &mut D,
    ) -> (r: Result<(), Error>)
        requires
            350 <= calibration_value <= 900,
        ensures
            r is Ok ==> calib_success(old(self).ops(), final(self).ops(), calibration_value),
            r matches Err(e) ==> calib_aborted(old(self).ops(), final(self).ops(), calibration_value)
                && (e matches Error::Interface(_) || e is Timeout),
            r is Ok ==> exists |w: Seq<u32>|
                #![trigger all_poll_waits(w)]
                all_poll_waits(w) && final(delay).delays() == old(delay).delays() + w
                    + seq![1000u32] && w.len() >= count_unready(
                    final(self).ops().skip(old(self).ops().len() as int),
                ),
            r is Err ==> exists |w: Seq<u32>|
                #![trigger calib_waits(w)]
                calib_waits(w) && final(delay).delays() == old(delay).delays() + w && w.len()
                    >= count_unready(final(self).ops().skip(old(self).ops().len() as int)),
            r == Err::<(), Error>(Error::Timeout) ==> exists |entry: u8, polls: Seq<BusOp>, w: Seq<u32>|
                #![trigger calib_head(entry, calibration_value), partial_polls(polls, 3), all_poll_waits(w)]
                {
                    &&& partial_polls(polls, 3)
                    &&& final(self).ops() == old(self).ops() + calib_head(entry, calibration_value)
                        + polls
                    &&& all_poll_waits(w)
                    &&& w.len() >= MAX_POLL_ATTEMPTS
                    &&& final(delay).delays() == old(delay).delays() + w
                },
    {
        let ghost pre = self.ops();
        let ghost dpre = delay.delays();
        let ghost no_waits = Seq::<u32>::empty();
        proof {
            assert(calib_waits(no_waits));
        }

        // 1. Force idle mode, preserving the rest of the configuration.
        let mut mode = match self.get_measurement_mode() {
            Ok(m) => m,
            Err(e) => {
                proof {
                    assert(self.ops() =~= pre + calib_head(0u8, calibration_value).take(0));
                    lemma_abort_prefix(pre, self.ops(), calibration_value, 0u8, 0);
                    assert(delay.delays() =~= dpre + no_waits);
                }
                return Err(e);
            }
        };
        let ghost entry = choose |b0: u8|
            self.ops() == pre.push(
                BusOp::Read1 { reg: Register::MeasurementMode.spec_address(), b0 },
            ) && mode == MeasurementMode::spec_from(b0);
        mode.operating_mode = OperatingMode::Idle;
        proof {
            assert(mode == MeasurementMode::spec_from(entry).with_operating_mode(OperatingMode::Idle));
        }
        match self.set_measurement_mode(mode) {
            Ok(()) => (),
            Err(e) => {
                proof {
                    assert(self.ops() =~= pre + calib_head(entry, calibration_value).take(1));
                    lemma_abort_prefix(pre, self.ops(), calibration_value, entry, 1);
                    assert(delay.delays() =~= dpre + no_waits);
                }
                return Err(e);
            }
        }

        // 2. The calibration procedure requires a ten-second cadence.
        match self.set_measurement_period(10) {
            Ok(()) => (),
            Err(e) => {
                proof {
                    assert(self.ops() =~= pre + calib_head(entry, calibration_value).take(2));
                    lemma_abort_prefix(pre, self.ops(), calibration_value, entry, 2);
                    assert(delay.delays() =~= dpre + no_waits);
                }
                return Err(e);
            }
        }

        // 3. The reference concentration the sensor treats as ground
        // truth.
        match self.set_aboc(calibration_value) {
            Ok(()) => (),
            Err(e) => {
                proof {
                    assert(self.ops() =~= pre + calib_head(entry, calibration_value).take(3));
                    lemma_abort_prefix(pre, self.ops(), calibration_value, entry, 3);
                    assert(delay.delays() =~= dpre + no_waits);
                }
                return Err(e);
            }
        }

        // 4. Enable forced compensation at continuous mode.
        mode.baseline_offset_comp = BaselineOffsetCompensation::Forced;
        mode.operating_mode = OperatingMode::Continuous;
        proof {
            assert(mode == MeasurementMode::spec_from(entry).with_forced_continuous());
        }
        match self.set_measurement_mode(mode) {
            Ok(()) => (),
            Err(e) => {
                proof {
                    assert(self.ops() =~= pre + calib_head(entry, calibration_value).take(4));
                    lemma_abort_prefix(pre, self.ops(), calibration_value, entry, 4);
                    assert(delay.delays() =~= dpre + no_waits);
                }
                return Err(e);
            }
        }

        let ghost head_done = pre + calib_head(entry, calibration_value);
        proof {
            assert(self.ops() =~= head_done);
        }

        // 5. Three readings, each polling the measurement status until
        // data is ready.
        let ghost mut polls: Seq<BusOp> = Seq::empty();
        let ghost mut waits: Seq<u32> = Seq::empty();
        proof {
            assert(self.ops() =~= head_done + polls);
            assert(delay.delays() =~= dpre + waits);
        }
        let mut round: u32 = 0;
        while round < 3
            invariant
                round <= 3,
                complete_polls(polls, round as nat),
                self.ops() == head_done + polls,
                delay.delays() == dpre + waits,
                all_poll_waits(waits),
                waits.len() >= count_unready(polls),
            decreases 3 - round,
        {
            let mut completed = false;
            let mut attempts: u32 = 0;
            let ghost polls_in = polls;
            let ghost mut run: Seq<BusOp> = Seq::empty();
            proof {
                assert(self.ops() =~= head_done + polls + run);
            }
            while !completed && attempts < MAX_POLL_ATTEMPTS
                invariant
                    wait_run(run),
                    delay.delays() == dpre + waits,
                    all_poll_waits(waits),
                    !completed ==> polls == polls_in && self.ops() == head_done + polls + run,
                    !completed ==> waits.len() >= count_unready(polls) + run.len(),
                    !completed ==> waits.len() >= attempts,
                    completed ==> self.ops() == head_done + polls
                        && complete_polls(polls, (round + 1) as nat)
                        && waits.len() >= count_unready(polls),
                decreases (if completed { 0int } else { 1int }), MAX_POLL_ATTEMPTS - attempts,
            {
                let outcome = self.get_measurement_status();
                match poll_step(outcome) {
                    PollStep::Sample => {
                        let ghost st = outcome->Ok_0;
                        let ghost sb = choose |b0: u8|
                            self.ops() == (head_done + polls + run).push(
                                BusOp::Read1 { reg: Register::MeasurementStatus.spec_address(), b0 },
                            ) && st == MeasurementStatus::spec_from(b0);
                        let ghost sop = BusOp::Read1 {
                            reg: Register::MeasurementStatus.spec_address(),
                            b0: sb,
                        };
                        proof {
                            assert(op_is_status_ready(sop));
                        }
                        match self.get_co2_ppm() {
                            Ok(co2_ppm) => {
                                proof {
                                    let (cb0, cb1) = choose |b0: u8, b1: u8|
                                        self.ops() == (head_done + polls + run).push(sop).push(
                                            BusOp::Read2 { reg: Register::Co2Ppm.spec_address(), b0, b1 },
                                        ) && co2_ppm == spec_i16_from_be(b0, b1);
                                    let cop = BusOp::Read2 {
                                        reg: Register::Co2Ppm.spec_address(),
                                        b0: cb0,
                                        b1: cb1,
                                    };
                                    assert(op_is_co2_read(cop));
                                    lemma_round_count(polls, run, sop, cop, round as nat);
                                    polls = polls + run.push(sop).push(cop);
                                    assert(self.ops() =~= head_done + polls);
                                }
                                completed = true;
                            }
                            Err(e) => {
                                proof {
                                    assert(self.ops() =~= pre + calib_head(entry, calibration_value)
                                        + (polls + run.push(sop)));
                                    lemma_abort_poll_phase_ready(
                                        pre,
                                        self.ops(),
                                        calibration_value,
                                        entry,
                                        polls,
                                        run,
                                        sop,
                                        round as nat,
                                    );
                                    assert(calib_waits(waits));
                                }
                                return Err(e);
                            }
                        }
                    }
                    PollStep::Retry => {
                        proof {
                            match outcome {
                                Ok(st) => {
                                    let sb = choose |b0: u8|
                                        self.ops() == (head_done + polls + run).push(
                                            BusOp::Read1 {
                                                reg: Register::MeasurementStatus.spec_address(),
                                                b0,
                                            },
                                        ) && st == MeasurementStatus::spec_from(b0);
                                    let sop = BusOp::Read1 {
                                        reg: Register::MeasurementStatus.spec_address(),
                                        b0: sb,
                                    };
                                    assert(op_is_status_not_ready(sop));
                                    run = run.push(sop);
                                    assert(wait_run(run));
                                    assert(self.ops() =~= head_done + polls + run);
                                }
                                Err(_) => {
                                    // The poll was not acknowledged: the
                                    // transcript is unchanged.
                                }
                            }
                        }
                        delay.delay_ms(100);
                        proof {
                            waits = waits.push(100u32);
                            assert(delay.delays() =~= dpre + waits);
                            assert(all_poll_waits(waits));
                        }
                        attempts = attempts + 1;
                    }
                    PollStep::Abort(e) => {
                        proof {
                            assert(self.ops() =~= pre + calib_head(entry, calibration_value)
                                + (polls + run));
                            lemma_abort_poll_phase(
                                pre,
                                self.ops(),
                                calibration_value,
                                entry,
                                polls,
                                run,
                                round as nat,
                            );
                            assert(calib_waits(waits));
                        }
                        return Err(e);
                    }
                }
            }
            if !completed {
                proof {
                    assert(self.ops() =~= pre + calib_head(entry, calibration_value)
                        + (polls + run));
                    lemma_abort_poll_phase(
                        pre,
                        self.ops(),
                        calibration_value,
                        entry,
                        polls,
                        run,
                        round as nat,
                    );
                    assert(calib_waits(waits));
                    assert(all_poll_waits(waits));
                }
                return Err(Error::Timeout);
            }
            round = round + 1;
        }

        // 6. Settle. Skipping this wait makes the sensor misbehave; the
        // underlying cause is not documented.
        let ghost waits100 = waits;
        delay.delay_ms(1000);
        proof {
            waits = waits.push(1000u32);
            assert(delay.delays() =~= dpre + waits);
            assert(calib_waits(waits));
        }

        // 7. Back to idle, keeping the configuration written for the
        // forced run. No command is issued to persist the result.
        mode.operating_mode = OperatingMode::Idle;
        proof {
            assert(mode == MeasurementMode::spec_from(entry).with_forced_continuous()
                .with_operating_mode(OperatingMode::Idle));
        }
        match self.set_measurement_mode(mode) {
            Ok(()) => {
                proof {
                    assert(self.ops() =~= pre + calib_head(entry, calibration_value) + polls
                        + seq![calib_exit_op(entry)]);
                    lemma_success_counts(pre, self.ops(), calibration_value, entry, polls);
                    assert(delay.delays() =~= dpre + waits100 + seq![1000u32]);
                    assert(all_poll_waits(waits100));
                }
                Ok(())
            }
            Err(e) => {
                proof {
                    assert(polls + Seq::<BusOp>::empty() =~= polls);
                    assert(self.ops() =~= pre + calib_head(entry, calibration_value) + (polls
                        + Seq::<BusOp>::empty()));
                    lemma_abort_poll_phase(
                        pre,
                        self.ops(),
                        calibration_value,
                        entry,
                        polls,
                        Seq::<BusOp>::empty(),
                        3,
                    );
                    assert(calib_waits(waits));
                }
                Err(e)
            }
        }
    }

    /// Write a byte to the scratchpad register and read it back: a pure
    /// bus connectivity check. The caller compares the returned byte.
    pub fn test_write_read(&mut self, val: u8) -> (r: Result<u8, Error>)
        ensures
            r matches Ok(b) ==> final(self).ops() == old(self).ops().push(
                (BusOp::Write1 { reg: Register::ScratchPad.spec_address(), b0: val }),
            ).push(
                (BusOp::Read1 { reg: Register::ScratchPad.spec_address(), b0: b }),
            ),
            r matches Err(e) ==> {
                &&& e matches Error::Interface(_)
                &&& (final(self).ops() == old(self).ops() || final(self).ops() == old(self).ops().push(
                    (BusOp::Write1 { reg: Register::ScratchPad.spec_address(), b0: val }),
                ))
            },
    {
        match self.write_reg1(Register::ScratchPad, val) {
            Ok(()) => (),
            Err(e) => {
                return Err(e);
            }
        }
        self.read_reg_u8(Register::ScratchPad)
    }

    /// Send a soft reset command to the sensor. The command register is
    /// write-only; there is no read-back.
    pub fn soft_reset(&mut self, reset: SoftReset) -> (r: Result<(), Error>)
        ensures
            r is Ok ==> final(self).ops() == old(self).ops().push(
                (BusOp::Write1 { reg: Register::SensorReset.spec_address(), b0: reset.spec_code() }),
            ),
            r matches Err(e) ==> final(self).ops() == old(self).ops() && e matches Error::Interface(_),
    {
        self.write_reg1(Register::SensorReset, reset.code())
    }
}

/// The byte written back by a single-shot start after reading mode byte
/// `b0`: only the two low bits change to the single-shot code, every other
/// meaningful bit matches the byte just read, and the two unused high bits
/// encode to zero. For the bytes the sensor actually produces, whose two
/// high bits are zero, all bits but the two low ones match the byte read.
pub proof fn lemma_start_measurement_byte(b0: u8)
    ensures
        MeasurementMode::spec_from(b0).with_operating_mode(OperatingMode::SingleShot).spec_encode()
            == (b0 & 0b0011_1100) | 0b0000_0001,
        b0 & 0b1100_0000 == 0
            ==> MeasurementMode::spec_from(b0).with_operating_mode(OperatingMode::SingleShot).spec_encode()
            == (b0 & 0b1111_1100) | 0b0000_0001,
{
    assert(b0 & 0b1100_0000 == 0 ==> (b0 & 0b0011_1100) | 0b0000_0001 == (b0 & 0b1111_1100)
        | 0b0000_0001) by (bit_vector);
    let m = MeasurementMode::spec_from(b0);
    let pe: u8 = if m.pwm_out_enable { 1u8 } else { 0u8 };
    let pm: u8 = m.pwm_mode.spec_code();
    let boc: u8 = m.baseline_offset_comp.spec_code();
    assert((b0 & 0b0001_0000) >> 4 <= 1 && (b0 & 0b0000_1100) >> 2 <= 3) by (bit_vector);
    assert(pm == (b0 & 0b0001_0000) >> 4 && boc == (b0 & 0b0000_1100) >> 2);
    assert(({
        let b = (pe << 5) | (pm << 4) | (boc << 2) | 1u8;
        b == (b0 & 0b0011_1100) | 0b0000_0001
    })) by (bit_vector)
        requires
            pe == (if b0 & 0b0010_0000 != 0 { 1u8 } else { 0u8 }),
            pm == (b0 & 0b0001_0000) >> 4,
            boc == (b0 & 0b0000_1100) >> 2,
    ;
}

} // verus!
