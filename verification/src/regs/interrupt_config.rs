//! Interrupt configuration register representation.
use vstd::prelude::*;

use crate::ResponseError;

verus! {

/// Structured value of the interrupt configuration register.
///
/// Bit layout: bit 4 is `int_pin_active_high`, bits 3:1 are
/// `int_function_config`, bit 0 is `alarm_crossing_up`. Function codes 5
/// through 7 are reserved and carry no defined meaning: decoding them fails
/// rather than yielding a silently wrong value.
#[derive(Clone, Copy, PartialEq, Eq, Structural, Debug)]
pub struct InterruptConfig {
    /// Interrupt pin electrical configuration: false = active low,
    /// true = active high.
    pub int_pin_active_high: bool,
    /// Interrupt pin function configuration.
    pub int_function_config: IntFunctionConfig,
    /// Alarm type: false = crossing down, true = crossing up.
    pub alarm_crossing_up: bool,
}

/// Interrupt pin function configuration.
#[derive(Clone, Copy, PartialEq, Eq, Structural, Debug)]
pub enum IntFunctionConfig {
    /// The interrupt pin is inactive.
    Inactive,
    /// Alarm threshold violation notification.
    Alarm,
    /// Data ready notification.
    DataReady,
    /// Busy notification.
    Busy,
    /// Early measurement start notification (continuous mode only).
    EarlyMeasurementStart,
    /// Reserved bit patterns, kept so every byte stays representable.
    /// Encodes as code 5; codes 5 through 7 all decode to it.
    _Reserved,
}

impl IntFunctionConfig {
    /// The field's three-bit code.
    pub open spec fn spec_code(self) -> u8 {
        match self {
            IntFunctionConfig::Inactive => 0,
            IntFunctionConfig::Alarm => 1,
            IntFunctionConfig::DataReady => 2,
            IntFunctionConfig::Busy => 3,
            IntFunctionConfig::EarlyMeasurementStart => 4,
            IntFunctionConfig::_Reserved => 5,
        }
    }

    /// The field value a three-bit code decodes to; 5 through 7 are
    /// reserved.
    pub open spec fn spec_from_code(code: u8) -> IntFunctionConfig {
        if code == 0 {
            IntFunctionConfig::Inactive
        } else if code == 1 {
            IntFunctionConfig::Alarm
        } else if code == 2 {
            IntFunctionConfig::DataReady
        } else if code == 3 {
            IntFunctionConfig::Busy
        } else if code == 4 {
            IntFunctionConfig::EarlyMeasurementStart
        } else {
            IntFunctionConfig::_Reserved
        }
    }
}

impl InterruptConfig {
    /// The function code carried by a raw byte.
    pub open spec fn spec_function_code(value: u8) -> u8 {
        (value & 0b0000_1110) >> 1
    }

    /// Whether a raw byte decodes to a defined structured value: its
    /// function code must be one of the five defined codes 0 through 4.
    pub open spec fn spec_decodable(value: u8) -> bool {
        InterruptConfig::spec_function_code(value) <= 4
    }

    /// The structured value a raw byte decodes to; reserved function codes
    /// all map to the reserved field value.
    pub open spec fn spec_from(value: u8) -> InterruptConfig {
        InterruptConfig {
            int_pin_active_high: value & 0b0001_0000 != 0,
            int_function_config: IntFunctionConfig::spec_from_code(InterruptConfig::spec_function_code(value)),
            alarm_crossing_up: value & 0b0000_0001 != 0,
        }
    }

    /// The raw byte this structured value encodes to. Total: the reserved
    /// field value is still encodable, as code 5.
    pub open spec fn spec_encode(self) -> u8 {
        ((if self.int_pin_active_high { 1u8 } else { 0u8 }) << 4)
        | (self.int_function_config.spec_code() << 1)
        | (if self.alarm_crossing_up { 1u8 } else { 0u8 })
    }

    /// Decode a raw byte, rejecting the reserved function codes 5 through 7.
    pub fn try_from(value: u8) -> (r: Result<InterruptConfig, ResponseError>)
        ensures
            match r {
                Ok(c) => InterruptConfig::spec_decodable(value) && c == InterruptConfig::spec_from(value),
                Err(e) => !InterruptConfig::spec_decodable(value) && e == ResponseError::InvalidRegisterValue,
            },
    {
        let code: u8 = (value & 0b0000_1110) >> 1;
        if code <= 4 {
            Ok(InterruptConfig::from(value))
        } else {
            Err(ResponseError::InvalidRegisterValue)
        }
    }

    /// Decode a raw byte totally: reserved function codes map to the
    /// reserved field value instead of failing.
    pub fn from(value: u8) -> (c: InterruptConfig)
        ensures
            c == InterruptConfig::spec_from(value),
    {
        let code: u8 = (value & 0b0000_1110) >> 1;
        InterruptConfig {
            int_pin_active_high: value & 0b0001_0000 != 0,
            int_function_config: if code == 0 {
                IntFunctionConfig::Inactive
            } else if code == 1 {
                IntFunctionConfig::Alarm
            } else if code == 2 {
                IntFunctionConfig::DataReady
            } else if code == 3 {
                IntFunctionConfig::Busy
            } else if code == 4 {
                IntFunctionConfig::EarlyMeasurementStart
            } else {
                IntFunctionConfig::_Reserved
            },
            alarm_crossing_up: value & 0b0000_0001 != 0,
        }
    }

    /// Encode this structured value into its raw byte.
    pub fn encode(self) -> (b: u8)
        ensures
            b == self.spec_encode(),
    {
        let active: u8 = if self.int_pin_active_high { 1 } else { 0 };
        let code: u8 = match self.int_function_config {
            IntFunctionConfig::Inactive => 0,
            IntFunctionConfig::Alarm => 1,
            IntFunctionConfig::DataReady => 2,
            IntFunctionConfig::Busy => 3,
            IntFunctionConfig::EarlyMeasurementStart => 4,
            IntFunctionConfig::_Reserved => 5,
        };
        let alarm: u8 = if self.alarm_crossing_up { 1 } else { 0 };
        (active << 4) | (code << 1) | alarm
    }
}

impl Default for InterruptConfig {
    /// Register value out of reset: 0x11, that is an active-high, inactive
    /// interrupt pin and alarm crossing up.
    fn default() -> (r: Self)
        ensures
            r == InterruptConfig::spec_from(0x11),
    {
        InterruptConfig::from(0x11)
    }
}

impl super::Reg for InterruptConfig {
    open spec fn spec_address() -> u8 {
        0x08
    }

    fn address() -> u8 {
        0x08
    }
}

/// Decoding inverts encoding: every structured interrupt configuration,
/// the reserved field value included, round-trips through its raw byte.
/// Together with `try_from`'s contract this gives the partial decoder's
/// round trip for the five defined function codes: their bytes are
/// decodable, and bytes whose function code is 5, 6 or 7 are rejected.
pub proof fn lemma_interrupt_config_round_trip(c: InterruptConfig)
    ensures
        InterruptConfig::spec_from(c.spec_encode()) == c,
        c.int_function_config != IntFunctionConfig::_Reserved ==> InterruptConfig::spec_decodable(c.spec_encode()),
{
    let active: u8 = if c.int_pin_active_high { 1u8 } else { 0u8 };
    let code: u8 = c.int_function_config.spec_code();
    let alarm: u8 = if c.alarm_crossing_up { 1u8 } else { 0u8 };
    assert(({
        let b = (active << 4) | (code << 1) | alarm;
        &&& (b & 0b0001_0000 != 0) == (active == 1)
        &&& (b & 0b0000_1110) >> 1 == code
        &&& (b & 0b0000_0001 != 0) == (alarm == 1)
    })) by (bit_vector)
        requires
            active <= 1,
            code <= 5,
            alarm <= 1,
    ;
}

} // verus!
