//! Measurement mode register representation.
use vstd::prelude::*;

verus! {

/// Structured value of the measurement mode register.
///
/// Bit layout: bit 5 is `pwm_out_enable`, bit 4 is `pwm_mode`, bits 3:2 are
/// `baseline_offset_comp`, bits 1:0 are `operating_mode`. The two high bits
/// are unused and encode to zero.
#[derive(Clone, Copy, PartialEq, Eq, Structural, Debug)]
pub struct MeasurementMode {
    /// PWM output software enable bit.
    pub pwm_out_enable: bool,
    /// PWM mode configuration.
    pub pwm_mode: PwmMode,
    /// Baseline offset compensation configuration.
    pub baseline_offset_comp: BaselineOffsetCompensation,
    /// Sensor operating mode.
    pub operating_mode: OperatingMode,
}

/// PWM output mode.
#[derive(Clone, Copy, PartialEq, Eq, Structural, Debug)]
pub enum PwmMode {
    /// A single pulse per measurement.
    SinglePulse,
    /// A pulse train per measurement.
    PulseTrain,
}

/// Baseline offset compensation configuration.
#[derive(Clone, Copy, PartialEq, Eq, Structural, Debug)]
pub enum BaselineOffsetCompensation {
    /// Compensation disabled.
    Disabled,
    /// Automatic compensation enabled.
    Enabled,
    /// Forced compensation against a caller-supplied reference.
    Forced,
    /// Reserved bit pattern, kept so every byte stays representable.
    _Reserved,
}

/// Sensor operating mode.
#[derive(Clone, Copy, PartialEq, Eq, Structural, Debug)]
pub enum OperatingMode {
    /// No measurements.
    Idle,
    /// One measurement, then back to idle.
    SingleShot,
    /// Periodic measurements at the configured rate.
    Continuous,
    /// Reserved bit pattern, kept so every byte stays representable.
    _Reserved,
}

impl PwmMode {
    /// The field's two-valued bit code.
    pub open spec fn spec_code(self) -> u8 {
        match self {
            PwmMode::SinglePulse => 0,
            PwmMode::PulseTrain => 1,
        }
    }

    /// The field value a bit code decodes to (any nonzero code means a pulse
    /// train, matching a one-bit wide field).
    pub open spec fn spec_from_code(code: u8) -> PwmMode {
        if code == 0 {
            PwmMode::SinglePulse
        } else {
            PwmMode::PulseTrain
        }
    }
}

impl BaselineOffsetCompensation {
    /// The field's two-bit code.
    pub open spec fn spec_code(self) -> u8 {
        match self {
            BaselineOffsetCompensation::Disabled => 0b00,
            BaselineOffsetCompensation::Enabled => 0b01,
            BaselineOffsetCompensation::Forced => 0b10,
            BaselineOffsetCompensation::_Reserved => 0b11,
        }
    }

    /// The field value a two-bit code decodes to.
    pub open spec fn spec_from_code(code: u8) -> BaselineOffsetCompensation {
        if code == 0b00 {
            BaselineOffsetCompensation::Disabled
        } else if code == 0b01 {
            BaselineOffsetCompensation::Enabled
        } else if code == 0b10 {
            BaselineOffsetCompensation::Forced
        } else {
            BaselineOffsetCompensation::_Reserved
        }
    }
}

impl OperatingMode {
    /// The field's two-bit code.
    pub open spec fn spec_code(self) -> u8 {
        match self {
            OperatingMode::Idle => 0b00,
            OperatingMode::SingleShot => 0b01,
            OperatingMode::Continuous => 0b10,
            OperatingMode::_Reserved => 0b11,
        }
    }

    /// The field value a two-bit code decodes to.
    pub open spec fn spec_from_code(code: u8) -> OperatingMode {
        if code == 0b00 {
            OperatingMode::Idle
        } else if code == 0b01 {
            OperatingMode::SingleShot
        } else if code == 0b10 {
            OperatingMode::Continuous
        } else {
            OperatingMode::_Reserved
        }
    }
}

impl MeasurementMode {
    /// The raw byte this structured value encodes to. Total: reserved field
    /// values are still encodable and round-trip as opaque bit patterns.
    pub open spec fn spec_encode(self) -> u8 {
        ((if self.pwm_out_enable { 1u8 } else { 0u8 }) << 5)
        | (self.pwm_mode.spec_code() << 4)
        | (self.baseline_offset_comp.spec_code() << 2)
        | self.operating_mode.spec_code()
    }

    /// The structured value a raw byte decodes to. The two high bits are
    /// ignored.
    pub open spec fn spec_from(value: u8) -> MeasurementMode {
        MeasurementMode {
            pwm_out_enable: value & 0b0010_0000 != 0,
            pwm_mode: PwmMode::spec_from_code((value & 0b0001_0000) >> 4),
            baseline_offset_comp: BaselineOffsetCompensation::spec_from_code((value & 0b0000_1100) >> 2),
            operating_mode: OperatingMode::spec_from_code(value & 0b0000_0011),
        }
    }

    /// Encode this structured value into its raw byte.
    pub fn encode(self) -> (b: u8)
        ensures
            b == self.spec_encode(),
    {
        let pe: u8 = if self.pwm_out_enable { 1 } else { 0 };
        let pm: u8 = match self.pwm_mode {
            PwmMode::SinglePulse => 0,
            PwmMode::PulseTrain => 1,
        };
        let boc: u8 = match self.baseline_offset_comp {
            BaselineOffsetCompensation::Disabled => 0b00,
            BaselineOffsetCompensation::Enabled => 0b01,
            BaselineOffsetCompensation::Forced => 0b10,
            BaselineOffsetCompensation::_Reserved => 0b11,
        };
        let om: u8 = match self.operating_mode {
            OperatingMode::Idle => 0b00,
            OperatingMode::SingleShot => 0b01,
            OperatingMode::Continuous => 0b10,
            OperatingMode::_Reserved => 0b11,
        };
        (pe << 5) | (pm << 4) | (boc << 2) | om
    }

    /// This mode with only its operating mode replaced.
    pub open spec fn with_operating_mode(self, om: OperatingMode) -> MeasurementMode {
        MeasurementMode {
            pwm_out_enable: self.pwm_out_enable,
            pwm_mode: self.pwm_mode,
            baseline_offset_comp: self.baseline_offset_comp,
            operating_mode: om,
        }
    }

    /// This mode with forced baseline offset compensation and continuous
    /// operation, everything else preserved.
    pub open spec fn with_forced_continuous(self) -> MeasurementMode {
        MeasurementMode {
            pwm_out_enable: self.pwm_out_enable,
            pwm_mode: self.pwm_mode,
            baseline_offset_comp: BaselineOffsetCompensation::Forced,
            operating_mode: OperatingMode::Continuous,
        }
    }

    /// Decode a raw measurement mode byte.
    pub fn from(value: u8) -> (m: MeasurementMode)
        ensures
            m == MeasurementMode::spec_from(value),
    {
        MeasurementMode {
            pwm_out_enable: value & 0b0010_0000 != 0,
            pwm_mode: if (value & 0b0001_0000) >> 4 == 0 {
                PwmMode::SinglePulse
            } else {
                PwmMode::PulseTrain
            },
            baseline_offset_comp: {
                let code: u8 = (value & 0b0000_1100) >> 2;
                if code == 0b00 {
                    BaselineOffsetCompensation::Disabled
                } else if code == 0b01 {
                    BaselineOffsetCompensation::Enabled
                } else if code == 0b10 {
                    BaselineOffsetCompensation::Forced
                } else {
                    BaselineOffsetCompensation::_Reserved
                }
            },
            operating_mode: {
                let code: u8 = value & 0b0000_0011;
                if code == 0b00 {
                    OperatingMode::Idle
                } else if code == 0b01 {
                    OperatingMode::SingleShot
                } else if code == 0b10 {
                    OperatingMode::Continuous
                } else {
                    OperatingMode::_Reserved
                }
            },
        }
    }
}

impl Default for MeasurementMode {
    /// Register value out of reset: 0x24, that is baseline offset
    /// compensation enabled and operating mode idle.
    fn default() -> (r: Self)
        ensures
            r == MeasurementMode::spec_from(0x24),
    {
        MeasurementMode::from(0x24)
    }
}

impl super::Reg for MeasurementMode {
    open spec fn spec_address() -> u8 {
        0x04
    }

    fn address() -> u8 {
        0x04
    }
}

/// Decoding inverts encoding: every structured measurement mode value,
/// reserved field values included, round-trips through its raw byte.
pub proof fn lemma_measurement_mode_round_trip(m: MeasurementMode)
    ensures
        MeasurementMode::spec_from(m.spec_encode()) == m,
{
    let pe: u8 = if m.pwm_out_enable { 1u8 } else { 0u8 };
    let pm: u8 = m.pwm_mode.spec_code();
    let boc: u8 = m.baseline_offset_comp.spec_code();
    let om: u8 = m.operating_mode.spec_code();
    assert(pe <= 1 && pm <= 1 && boc <= 3 && om <= 3);
    assert(({
        let b = (pe << 5) | (pm << 4) | (boc << 2) | om;
        &&& (b & 0b0010_0000 != 0) == (pe == 1)
        &&& (b & 0b0001_0000) >> 4 == pm
        &&& (b & 0b0000_1100) >> 2 == boc
        &&& (b & 0b0000_0011) == om
    })) by (bit_vector)
        requires
            pe <= 1,
            pm <= 1,
            boc <= 3,
            om <= 3,
    ;
}

/// Encoding a decoded byte reproduces the byte's six meaningful bits: the
/// two unused high bits come back as zero, everything else is preserved.
pub proof fn lemma_measurement_mode_encode_from(value: u8)
    ensures
        MeasurementMode::spec_from(value).spec_encode() == value & 0b0011_1111,
{
    assert(({
        let pe = if value & 0b0010_0000 != 0 { 1u8 } else { 0u8 };
        let pm = (value & 0b0001_0000) >> 4;
        let boc = (value & 0b0000_1100) >> 2;
        let om = value & 0b0000_0011;
        &&& pm <= 1
        &&& boc <= 3
        &&& om <= 3
        &&& (pe << 5) | (pm << 4) | (boc << 2) | om == value & 0b0011_1111
    })) by (bit_vector);
    assert(PwmMode::spec_from_code((value & 0b0001_0000) >> 4).spec_code() == (value & 0b0001_0000) >> 4);
    assert(BaselineOffsetCompensation::spec_from_code((value & 0b0000_1100) >> 2).spec_code() == (value & 0b0000_1100) >> 2);
    assert(OperatingMode::spec_from_code(value & 0b0000_0011).spec_code() == value & 0b0000_0011);
}

} // verus!
