//! Measurement status register representation.
use vstd::prelude::*;

verus! {

/// Structured value of the measurement status register.
///
/// `int_active` and `alarm` are write-1-to-clear, through their own clear
/// bitmask positions.
#[derive(Clone, Copy, PartialEq, Eq, Structural, Debug)]
pub struct MeasurementStatus {
    /// New data available in the CO2 concentration register.
    pub data_ready: bool,
    /// The interrupt pin has been latched to its active state.
    pub int_active: bool,
    /// Alarm notification (a threshold violation occurred).
    pub alarm: bool,
}

impl MeasurementStatus {
    /// The structured value a raw measurement status byte decodes to.
    pub open spec fn spec_from(value: u8) -> MeasurementStatus {
        MeasurementStatus {
            data_ready: value & 0b0001_0000 != 0,
            int_active: value & 0b0000_1000 != 0,
            alarm: value & 0b0000_0100 != 0,
        }
    }

    /// The raw byte this structured value encodes to (unused bits zero).
    pub open spec fn spec_encode(self) -> u8 {
        (if self.data_ready { 0b0001_0000u8 } else { 0u8 })
        | (if self.int_active { 0b0000_1000u8 } else { 0u8 })
        | (if self.alarm { 0b0000_0100u8 } else { 0u8 })
    }

    /// Decode a raw measurement status byte.
    pub fn from(value: u8) -> (s: MeasurementStatus)
        ensures
            s == MeasurementStatus::spec_from(value),
    {
        MeasurementStatus {
            data_ready: value & 0b0001_0000 != 0,
            int_active: value & 0b0000_1000 != 0,
            alarm: value & 0b0000_0100 != 0,
        }
    }

    /// Bitmask that clears the interrupt pin active bit.
    pub fn clear_int_active() -> (m: u8)
        ensures
            m == 0b0000_0100u8,
    {
        0b0000_0100
    }

    /// Bitmask that clears the alarm bit.
    pub fn clear_alarm() -> (m: u8)
        ensures
            m == 0b0000_0010u8,
    {
        0b0000_0010
    }
}

impl super::Reg for MeasurementStatus {
    open spec fn spec_address() -> u8 {
        0x07
    }

    fn address() -> u8 {
        0x07
    }
}

/// Decoding inverts encoding: every structured measurement status value
/// round-trips through its raw byte.
pub proof fn lemma_measurement_status_round_trip(s: MeasurementStatus)
    ensures
        MeasurementStatus::spec_from(s.spec_encode()) == s,
{
    lemma_measurement_status_bits(s.data_ready, s.int_active, s.alarm);
}

proof fn lemma_measurement_status_bits(d: bool, i: bool, a: bool)
    ensures
        ({
            let b = (if d { 0b0001_0000u8 } else { 0u8 })
                | (if i { 0b0000_1000u8 } else { 0u8 })
                | (if a { 0b0000_0100u8 } else { 0u8 });
            &&& (b & 0b0001_0000 != 0) == d
            &&& (b & 0b0000_1000 != 0) == i
            &&& (b & 0b0000_0100 != 0) == a
        }),
{
    assert(({
        let b = (if d { 0b0001_0000u8 } else { 0u8 })
            | (if i { 0b0000_1000u8 } else { 0u8 })
            | (if a { 0b0000_0100u8 } else { 0u8 });
        &&& (b & 0b0001_0000 != 0) == d
        &&& (b & 0b0000_1000 != 0) == i
        &&& (b & 0b0000_0100 != 0) == a
    })) by (bit_vector);
}

} // verus!
