use pas_co2::regs::BaselineOffsetCompensation;
use pas_co2::regs::IntFunctionConfig;
use pas_co2::regs::InterruptConfig;
use pas_co2::regs::MeasurementMode;
use pas_co2::regs::MeasurementStatus;
use pas_co2::regs::OperatingMode;
use pas_co2::regs::PwmMode;
use pas_co2::regs::Register;
use pas_co2::regs::SoftReset;
use pas_co2::regs::Status;
use pas_co2::ResponseError;

#[test]
fn test_status_bitmask() {
    let status = Status {
        ready: true,
        pwm_dis: false,
        temperature_error: false,
        voltage_error: true,
        communication_error: true,
    };

    let bitmask: u8 = 0b1001_1000;

    assert_eq!(status, Status::from(bitmask))
}

#[test]
fn test_measurement_status_bitmask() {
    let status = MeasurementStatus {
        data_ready: true,
        int_active: false,
        alarm: true,
    };

    let bitmask: u8 = 0b0001_0100;

    assert_eq!(status, MeasurementStatus::from(bitmask));

    // Check that not equal if alarm bit is flipped
    assert_ne!(status, MeasurementStatus::from(bitmask ^ 0b0000_0100));
}

#[test]
fn test_measurement_mode_bitmask() {
    let mode = MeasurementMode {
        pwm_out_enable: true,                                     // 0b1
        pwm_mode: PwmMode::SinglePulse,                           //0b0
        baseline_offset_comp: BaselineOffsetCompensation::Forced, //0b10
        operating_mode: OperatingMode::Continuous,                // 0b10
    };

    let bitmask: u8 = mode.encode();

    assert_eq!(bitmask, 0b0010_1010)
}

#[test]
fn test_interrupt_config_bitmask() {
    let config = InterruptConfig {
        int_pin_active_high: true,
        int_function_config: IntFunctionConfig::DataReady,
        alarm_crossing_up: true,
    };

    let bitmask: u8 = config.encode();

    assert_eq!(bitmask, 0b0001_0101);

    let config_from = InterruptConfig::try_from(bitmask).unwrap();
    assert_eq!(config, config_from);
}

#[test]
fn interrupt_config_test_bitmask() {
    let config = InterruptConfig {
        int_pin_active_high: true,
        int_function_config: IntFunctionConfig::DataReady,
        alarm_crossing_up: true,
    };

    let bitmask: u8 = config.encode();

    assert_eq!(bitmask, 0b0001_0101);

    let config_from = InterruptConfig::from(bitmask);
    assert_eq!(config, config_from);
}

#[test]
fn measurement_mode_test_bitmask() {
    let mode = MeasurementMode {
        pwm_out_enable: true,                                     // 0b1
        pwm_mode: PwmMode::SinglePulse,                           //0b0
        baseline_offset_comp: BaselineOffsetCompensation::Forced, //0b10
        operating_mode: OperatingMode::Continuous,                // 0b10
    };

    let bitmask: u8 = mode.encode();

    assert_eq!(bitmask, 0b0010_1010)
}

#[test]
fn measurement_status_test_bitmask() {
    let status = MeasurementStatus {
        data_ready: true,
        int_active: false,
        alarm: true,
    };

    let bitmask: u8 = 0b0001_0100;

    assert_eq!(status, MeasurementStatus::from(bitmask));

    // Check that not equal if alarm bit is flipped
    assert_ne!(status, MeasurementStatus::from(bitmask ^ 0b0000_0100));
}

#[test]
fn status_test_bitmask() {
    let status = Status {
        ready: true,
        pwm_dis: false,
        temperature_error: false,
        voltage_error: true,
        communication_error: true,
    };

    let bitmask: u8 = 0b1001_1000;

    assert_eq!(status, Status::from(bitmask))
}

#[test]
fn measurement_mode_round_trips_through_every_byte() {
    for value in 0u8..=0x3F {
        let mode = MeasurementMode::from(value);
        assert_eq!(mode.encode(), value);
    }
    // The two unused high bits decode away and encode back as zero.
    assert_eq!(MeasurementMode::from(0xE4).encode(), 0x24);
}

#[test]
fn status_round_trips_through_every_flag_pattern() {
    for value in 0u8..=0b0001_1111 {
        let byte = value << 3;
        let decoded = Status::from(byte);
        let reencoded: u8 = (decoded.ready as u8) << 7
            | (decoded.pwm_dis as u8) << 6
            | (decoded.temperature_error as u8) << 5
            | (decoded.voltage_error as u8) << 4
            | (decoded.communication_error as u8) << 3;
        assert_eq!(reencoded, byte);
    }
}

#[test]
fn measurement_status_round_trips_through_every_flag_pattern() {
    for value in 0u8..=0b0000_0111 {
        let byte = value << 2;
        let decoded = MeasurementStatus::from(byte);
        let reencoded: u8 = (decoded.data_ready as u8) << 4
            | (decoded.int_active as u8) << 3
            | (decoded.alarm as u8) << 2;
        assert_eq!(reencoded, byte);
    }
}

#[test]
fn interrupt_config_round_trips_for_defined_function_codes() {
    for code in 0u8..=4 {
        for rest in [0u8, 0b0001_0001] {
            let byte = (code << 1) | rest;
            let decoded = InterruptConfig::try_from(byte).unwrap();
            assert_eq!(decoded.encode(), byte);
            assert_eq!(InterruptConfig::from(byte), decoded);
        }
    }
}

#[test]
fn interrupt_config_rejects_reserved_function_codes() {
    for code in 5u8..=7 {
        let byte = code << 1;
        assert_eq!(
            InterruptConfig::try_from(byte),
            Err(ResponseError::InvalidRegisterValue)
        );
        assert_eq!(
            InterruptConfig::try_from(byte | 0b0001_0001),
            Err(ResponseError::InvalidRegisterValue)
        );
        // The total decoder maps them all to the reserved field value.
        assert_eq!(
            InterruptConfig::from(byte).int_function_config,
            IntFunctionConfig::_Reserved
        );
    }
}

#[test]
fn interrupt_config_reserved_value_encodes_as_code_five() {
    let config = InterruptConfig {
        int_pin_active_high: false,
        int_function_config: IntFunctionConfig::_Reserved,
        alarm_crossing_up: false,
    };
    assert_eq!(config.encode(), 0b0000_1010);
    assert_eq!(
        InterruptConfig::try_from(config.encode()),
        Err(ResponseError::InvalidRegisterValue)
    );
}

#[test]
fn status_decodes_each_bit_position() {
    let s = Status::from(0b1000_0000);
    assert!(s.ready && !s.pwm_dis && !s.temperature_error && !s.voltage_error && !s.communication_error);
    let s = Status::from(0b0100_0000);
    assert!(s.pwm_dis && !s.ready);
    let s = Status::from(0b0010_0000);
    assert!(s.temperature_error);
    let s = Status::from(0b0001_0000);
    assert!(s.voltage_error);
    let s = Status::from(0b0000_1000);
    assert!(s.communication_error);
}

#[test]
fn measurement_mode_default_is_enabled_compensation_idle() {
    let mode = MeasurementMode::default();
    assert_eq!(mode.operating_mode, OperatingMode::Idle);
    assert_eq!(mode.baseline_offset_comp, BaselineOffsetCompensation::Enabled);
    assert_eq!(mode.pwm_mode, PwmMode::SinglePulse);
    assert!(mode.pwm_out_enable);
    assert_eq!(mode.encode(), 0x24);
}

#[test]
fn interrupt_config_default_is_inactive_active_high() {
    let config = InterruptConfig::default();
    assert!(config.int_pin_active_high);
    assert_eq!(config.int_function_config, IntFunctionConfig::Inactive);
    assert!(config.alarm_crossing_up);
    assert_eq!(config.encode(), 0x11);
}

#[test]
fn register_addresses_match_the_map() {
    assert_eq!(Register::ProdId.address(), 0x00);
    assert_eq!(Register::SensorStatus.address(), 0x01);
    assert_eq!(Register::MeasurementRate.address(), 0x02);
    assert_eq!(Register::MeasurementMode.address(), 0x04);
    assert_eq!(Register::Co2Ppm.address(), 0x05);
    assert_eq!(Register::MeasurementStatus.address(), 0x07);
    assert_eq!(Register::InterruptConfig.address(), 0x08);
    assert_eq!(Register::AlarmThreshold.address(), 0x09);
    assert_eq!(Register::PressureReference.address(), 0x0B);
    assert_eq!(Register::CalibrationReference.address(), 0x0D);
    assert_eq!(Register::ScratchPad.address(), 0x0F);
    assert_eq!(Register::SensorReset.address(), 0x10);
}

#[test]
fn soft_reset_command_codes() {
    assert_eq!(SoftReset::SoftReset.code(), 0xA3);
    assert_eq!(SoftReset::AbocReset.code(), 0xBC);
    assert_eq!(SoftReset::SaveForceCalibNvm.code(), 0xCF);
    assert_eq!(SoftReset::DisableStepwiseReactiveIirFilter.code(), 0xDF);
    assert_eq!(SoftReset::ResetForcedCalibCorrectionFactor.code(), 0xFC);
    assert_eq!(SoftReset::EnableStepwiseReactiveIirFilter.code(), 0xFE);
}

#[test]
fn clear_bitmasks_match_the_register_map() {
    assert_eq!(Status::clear_temperature_error(), 0b0000_0100);
    assert_eq!(Status::clear_voltage_error(), 0b0000_0010);
    assert_eq!(Status::clear_communication_error(), 0b0000_0001);
    assert_eq!(MeasurementStatus::clear_int_active(), 0b0000_0100);
    assert_eq!(MeasurementStatus::clear_alarm(), 0b0000_0010);
}
