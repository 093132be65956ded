//! Sensor registers: addresses and structured representations.
use vstd::prelude::*;

pub mod interrupt_config;
pub mod measurement_mode;
pub mod measurement_status;
pub mod status;

pub use interrupt_config::IntFunctionConfig;
pub use interrupt_config::InterruptConfig;
pub use measurement_mode::BaselineOffsetCompensation;
pub use measurement_mode::MeasurementMode;
pub use measurement_mode::OperatingMode;
pub use measurement_mode::PwmMode;
pub use measurement_status::MeasurementStatus;
pub use status::Status;

verus! {

/// The sensor's register map.
#[derive(Clone, Copy, PartialEq, Eq, Structural, Debug)]
pub enum Register {
    /// Product and revision identification (read-only).
    ProdId,
    /// Sensor status bits.
    SensorStatus,
    /// Period between two measurements in continuous mode, in seconds.
    MeasurementRate,
    /// Measurement mode configuration.
    MeasurementMode,
    /// Latest CO2 concentration reading, in ppm.
    Co2Ppm,
    /// Measurement status bits.
    MeasurementStatus,
    /// Interrupt pin configuration.
    InterruptConfig,
    /// Alarm threshold, in ppm.
    AlarmThreshold,
    /// Pressure compensation reference, in hPa.
    PressureReference,
    /// Calibration (baseline offset compensation) reference, in ppm.
    CalibrationReference,
    /// Scratch byte, free for the user to write and read back.
    ScratchPad,
    /// Soft reset command register (write-only).
    SensorReset,
}

impl Register {
    /// Address of this register on the bus.
    pub open spec fn spec_address(self) -> u8 {
        match self {
            Register::ProdId => 0x00,
            Register::SensorStatus => 0x01,
            Register::MeasurementRate => 0x02,
            Register::MeasurementMode => 0x04,
            Register::Co2Ppm => 0x05,
            Register::MeasurementStatus => 0x07,
            Register::InterruptConfig => 0x08,
            Register::AlarmThreshold => 0x09,
            Register::PressureReference => 0x0B,
            Register::CalibrationReference => 0x0D,
            Register::ScratchPad => 0x0F,
            Register::SensorReset => 0x10,
        }
    }

    /// Address of this register on the bus.
    pub fn address(self) -> (a: u8)
        ensures
            a == self.spec_address(),
    {
        match self {
            Register::ProdId => 0x00,
            Register::SensorStatus => 0x01,
            Register::MeasurementRate => 0x02,
            Register::MeasurementMode => 0x04,
            Register::Co2Ppm => 0x05,
            Register::MeasurementStatus => 0x07,
            Register::InterruptConfig => 0x08,
            Register::AlarmThreshold => 0x09,
            Register::PressureReference => 0x0B,
            Register::CalibrationReference => 0x0D,
            Register::ScratchPad => 0x0F,
            Register::SensorReset => 0x10,
        }
    }
}

/// Shared trait for the register marker types: each knows its bus address.
pub trait Reg {
    /// Register address.
    spec fn spec_address() -> u8;

    /// Register address.
    fn address() -> (a: u8)
        ensures
            a == Self::spec_address(),
    ;
}

/// Measurement period (or rate) register.
pub struct MeasurementPeriod;

impl Reg for MeasurementPeriod {
    open spec fn spec_address() -> u8 {
        0x02
    }

    fn address() -> u8 {
        0x02
    }
}

/// CO2 concentration measurement register.
pub struct Co2Ppm;

impl Reg for Co2Ppm {
    open spec fn spec_address() -> u8 {
        0x05
    }

    fn address() -> u8 {
        0x05
    }
}

/// Alarm threshold register, in ppm.
pub struct AlarmThreshold(pub i16);

impl Reg for AlarmThreshold {
    open spec fn spec_address() -> u8 {
        0x09
    }

    fn address() -> u8 {
        0x09
    }
}

impl Default for AlarmThreshold {
    /// The threshold is zero out of reset.
    fn default() -> (r: Self)
        ensures
            r.0 == 0,
    {
        AlarmThreshold(0)
    }
}

/// Pressure compensation register, in hPa.
pub struct PressureCompensation(pub u16);

impl Reg for PressureCompensation {
    open spec fn spec_address() -> u8 {
        0x0B
    }

    fn address() -> u8 {
        0x0B
    }
}

impl Default for PressureCompensation {
    /// 1015 hPa (high byte 0x03, low byte 0xF7) out of reset.
    fn default() -> (r: Self)
        ensures
            r.0 == 0x03F7,
    {
        PressureCompensation(0x03F7)
    }
}

/// Automatic baseline offset compensation reference register, in ppm.
pub struct ABOC(pub i16);

impl Reg for ABOC {
    open spec fn spec_address() -> u8 {
        0x0D
    }

    fn address() -> u8 {
        0x0D
    }
}

impl Default for ABOC {
    /// 400 ppm (high byte 0x01, low byte 0x90) out of reset.
    fn default() -> (r: Self)
        ensures
            r.0 == 0x0190,
    {
        ABOC(0x0190)
    }
}

/// Scratchpad register (free for the user to write and read back).
pub struct Scratchpad;

impl Reg for Scratchpad {
    open spec fn spec_address() -> u8 {
        0x0F
    }

    fn address() -> u8 {
        0x0F
    }
}

/// Commands accepted by the soft reset register.
#[derive(Clone, Copy, PartialEq, Eq, Structural, Debug)]
pub enum SoftReset {
    /// Trigger a soft reset event.
    SoftReset,
    /// Reset the baseline offset compensation context.
    AbocReset,
    /// Save the forced calibration offset to internal NVM immediately.
    SaveForceCalibNvm,
    /// Disable the stepwise reactive IIR filter.
    DisableStepwiseReactiveIirFilter,
    /// Reset the forced calibration correction factor.
    ResetForcedCalibCorrectionFactor,
    /// Enable the stepwise reactive IIR filter (enabled out of reset).
    EnableStepwiseReactiveIirFilter,
}

impl SoftReset {
    /// Command code written to the soft reset register.
    pub open spec fn spec_code(self) -> u8 {
        match self {
            SoftReset::SoftReset => 0xA3,
            SoftReset::AbocReset => 0xBC,
            SoftReset::SaveForceCalibNvm => 0xCF,
            SoftReset::DisableStepwiseReactiveIirFilter => 0xDF,
            SoftReset::ResetForcedCalibCorrectionFactor => 0xFC,
            SoftReset::EnableStepwiseReactiveIirFilter => 0xFE,
        }
    }

    /// Command code written to the soft reset register.
    pub fn code(self) -> (c: u8)
        ensures
            c == self.spec_code(),
    {
        match self {
            SoftReset::SoftReset => 0xA3,
            SoftReset::AbocReset => 0xBC,
            SoftReset::SaveForceCalibNvm => 0xCF,
            SoftReset::DisableStepwiseReactiveIirFilter => 0xDF,
            SoftReset::ResetForcedCalibCorrectionFactor => 0xFC,
            SoftReset::EnableStepwiseReactiveIirFilter => 0xFE,
        }
    }
}

impl Reg for SoftReset {
    open spec fn spec_address() -> u8 {
        0x10
    }

    fn address() -> u8 {
        0x10
    }
}

} // verus!
