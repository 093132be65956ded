//! Sensor status register representation.
use vstd::prelude::*;

verus! {

/// Structured value of the sensor status register.
///
/// The error bits are write-1-to-clear: writing a 1 to a bit position clears
/// that flag and leaves the others unaffected.
#[derive(Clone, Copy, PartialEq, Eq, Structural, Debug)]
pub struct Status {
    /// Sensor ready bit.
    pub ready: bool,
    /// PWM_DIS pin status.
    pub pwm_dis: bool,
    /// Out-of-range temperature error bit.
    pub temperature_error: bool,
    /// Out-of-range supply voltage error bit.
    pub voltage_error: bool,
    /// Communication error notification bit.
    pub communication_error: bool,
}

impl Status {
    /// The structured value a raw status byte decodes to.
    pub open spec fn spec_from(value: u8) -> Status {
        Status {
            ready: value & 0b1000_0000 != 0,
            pwm_dis: value & 0b0100_0000 != 0,
            temperature_error: value & 0b0010_0000 != 0,
            voltage_error: value & 0b0001_0000 != 0,
            communication_error: value & 0b0000_1000 != 0,
        }
    }

    /// The raw byte this structured value encodes to (unused low bits zero).
    pub open spec fn spec_encode(self) -> u8 {
        (if self.ready { 0b1000_0000u8 } else { 0u8 })
        | (if self.pwm_dis { 0b0100_0000u8 } else { 0u8 })
        | (if self.temperature_error { 0b0010_0000u8 } else { 0u8 })
        | (if self.voltage_error { 0b0001_0000u8 } else { 0u8 })
        | (if self.communication_error { 0b0000_1000u8 } else { 0u8 })
    }

    /// Decode a raw status byte.
    pub fn from(value: u8) -> (s: Status)
        ensures
            s == Status::spec_from(value),
    {
        Status {
            ready: value & 0b1000_0000 != 0,
            pwm_dis: value & 0b0100_0000 != 0,
            temperature_error: value & 0b0010_0000 != 0,
            voltage_error: value & 0b0001_0000 != 0,
            communication_error: value & 0b0000_1000 != 0,
        }
    }

    /// Bitmask that clears the temperature error bit.
    pub fn clear_temperature_error() -> (m: u8)
        ensures
            m == 0b0000_0100u8,
    {
        0b0000_0100
    }

    /// Bitmask that clears the voltage error bit.
    pub fn clear_voltage_error() -> (m: u8)
        ensures
            m == 0b0000_0010u8,
    {
        0b0000_0010
    }

    /// Bitmask that clears the communication error bit.
    pub fn clear_communication_error() -> (m: u8)
        ensures
            m == 0b0000_0001u8,
    {
        0b0000_0001
    }
}

impl super::Reg for Status {
    open spec fn spec_address() -> u8 {
        0x01
    }

    fn address() -> u8 {
        0x01
    }
}

/// Decoding inverts encoding: every structured status value round-trips
/// through its raw byte.
pub proof fn lemma_status_round_trip(s: Status)
    ensures
        Status::spec_from(s.spec_encode()) == s,
{
    lemma_status_bits(s.ready, s.pwm_dis, s.temperature_error, s.voltage_error, s.communication_error);
}

proof fn lemma_status_bits(r: bool, p: bool, t: bool, v: bool, c: bool)
    ensures
        ({
            let b = (if r { 0b1000_0000u8 } else { 0u8 })
                | (if p { 0b0100_0000u8 } else { 0u8 })
                | (if t { 0b0010_0000u8 } else { 0u8 })
                | (if v { 0b0001_0000u8 } else { 0u8 })
                | (if c { 0b0000_1000u8 } else { 0u8 });
            &&& (b & 0b1000_0000 != 0) == r
            &&& (b & 0b0100_0000 != 0) == p
            &&& (b & 0b0010_0000 != 0) == t
            &&& (b & 0b0001_0000 != 0) == v
            &&& (b & 0b0000_1000 != 0) == c
        }),
{
    assert(({
        let b = (if r { 0b1000_0000u8 } else { 0u8 })
            | (if p { 0b0100_0000u8 } else { 0u8 })
            | (if t { 0b0010_0000u8 } else { 0u8 })
            | (if v { 0b0001_0000u8 } else { 0u8 })
            | (if c { 0b0000_1000u8 } else { 0u8 });
        &&& (b & 0b1000_0000 != 0) == r
        &&& (b & 0b0100_0000 != 0) == p
        &&& (b & 0b0010_0000 != 0) == t
        &&& (b & 0b0001_0000 != 0) == v
        &&& (b & 0b0000_1000 != 0) == c
    })) by (bit_vector);
}

} // verus!
