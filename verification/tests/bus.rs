use pas_co2::driver::poll_step;
use pas_co2::driver::PollStep;
use pas_co2::driver::MAX_POLL_ATTEMPTS;
use pas_co2::regs::BaselineOffsetCompensation;
use pas_co2::regs::MeasurementStatus;
use pas_co2::regs::IntFunctionConfig;
use pas_co2::regs::InterruptConfig;
use pas_co2::regs::MeasurementMode;
use pas_co2::regs::OperatingMode;
use pas_co2::regs::PwmMode;
use pas_co2::regs::SoftReset;
use pas_co2::sim::RecordedDelay;
use pas_co2::sim::ScriptStep;
use pas_co2::sim::ScriptedBus;
use pas_co2::transport::BusOp;
use pas_co2::BusError;
use pas_co2::Error;
use pas_co2::PasCo2;
use pas_co2::ResponseError;

#[test]
fn clear_status_issues_one_write_of_the_or_ed_masks() {
    let mut drv = PasCo2::new(ScriptedBus::new(vec![ScriptStep::AckWrite]));
    assert_eq!(drv.clear_status(), Ok(()));
    let bus = drv.free();
    // Exactly one write to the status register, never a read first.
    assert_eq!(bus.recorded(), &vec![BusOp::Write1 { reg: 0x01, b0: 0b0000_0111 }]);
}

#[test]
fn individual_clear_writes_use_their_own_masks() {
    let script = vec![ScriptStep::AckWrite; 5];
    let mut drv = PasCo2::new(ScriptedBus::new(script));
    assert_eq!(drv.clear_temperature_error(), Ok(()));
    assert_eq!(drv.clear_voltage_error(), Ok(()));
    assert_eq!(drv.clear_communication_error(), Ok(()));
    assert_eq!(drv.clear_int_active(), Ok(()));
    assert_eq!(drv.clear_alarm(), Ok(()));
    let bus = drv.free();
    assert_eq!(
        bus.recorded(),
        &vec![
            BusOp::Write1 { reg: 0x01, b0: 0b0000_0100 },
            BusOp::Write1 { reg: 0x01, b0: 0b0000_0010 },
            BusOp::Write1 { reg: 0x01, b0: 0b0000_0001 },
            BusOp::Write1 { reg: 0x07, b0: 0b0000_0100 },
            BusOp::Write1 { reg: 0x07, b0: 0b0000_0010 },
        ]
    );
}

#[test]
fn clear_measurement_status_issues_the_two_clear_writes_in_order() {
    let mut drv = PasCo2::new(ScriptedBus::new(vec![ScriptStep::AckWrite, ScriptStep::AckWrite]));
    assert_eq!(drv.clear_measurement_status(), Ok(()));
    let bus = drv.free();
    assert_eq!(
        bus.recorded(),
        &vec![
            BusOp::Write1 { reg: 0x07, b0: 0b0000_0100 },
            BusOp::Write1 { reg: 0x07, b0: 0b0000_0010 },
        ]
    );
}

#[test]
fn clear_measurement_status_stops_after_a_failing_write() {
    let mut drv = PasCo2::new(ScriptedBus::new(vec![ScriptStep::AckWrite, ScriptStep::Fault]));
    assert_eq!(
        drv.clear_measurement_status(),
        Err(Error::Interface(BusError::Other))
    );
    let bus = drv.free();
    assert_eq!(bus.recorded(), &vec![BusOp::Write1 { reg: 0x07, b0: 0b0000_0100 }]);
}

#[test]
fn start_measurement_reads_then_rewrites_only_the_low_bits() {
    let script = vec![ScriptStep::Reply1 { b0: 0x24 }, ScriptStep::AckWrite];
    let mut drv = PasCo2::new(ScriptedBus::new(script));
    assert_eq!(drv.start_measurement(), Ok(()));
    let bus = drv.free();
    assert_eq!(
        bus.recorded(),
        &vec![
            BusOp::Read1 { reg: 0x04, b0: 0x24 },
            BusOp::Write1 { reg: 0x04, b0: 0x25 },
        ]
    );
}

#[test]
fn get_status_decodes_the_byte_read() {
    let mut drv = PasCo2::new(ScriptedBus::new(vec![ScriptStep::Reply1 { b0: 0b1001_1000 }]));
    let status = drv.get_status().unwrap();
    assert!(status.ready && status.voltage_error && status.communication_error);
    assert!(!status.pwm_dis && !status.temperature_error);
    let bus = drv.free();
    assert_eq!(bus.recorded(), &vec![BusOp::Read1 { reg: 0x01, b0: 0b1001_1000 }]);
}

#[test]
fn get_measurement_status_decodes_the_byte_read() {
    let mut drv = PasCo2::new(ScriptedBus::new(vec![ScriptStep::Reply1 { b0: 0b0001_0100 }]));
    let status = drv.get_measurement_status().unwrap();
    assert!(status.data_ready && status.alarm && !status.int_active);
    drv.free();
}

#[test]
fn set_measurement_period_writes_big_endian() {
    let mut drv = PasCo2::new(ScriptedBus::new(vec![ScriptStep::AckWrite, ScriptStep::AckWrite]));
    assert_eq!(drv.set_measurement_period(10), Ok(()));
    assert_eq!(drv.set_measurement_period(4095), Ok(()));
    let bus = drv.free();
    assert_eq!(
        bus.recorded(),
        &vec![
            BusOp::Write2 { reg: 0x02, b0: 0x00, b1: 0x0A },
            BusOp::Write2 { reg: 0x02, b0: 0x0F, b1: 0xFF },
        ]
    );
}

#[test]
fn get_measurement_period_decodes_big_endian() {
    let mut drv = PasCo2::new(ScriptedBus::new(vec![ScriptStep::Reply2 { b0: 0x0F, b1: 0xFF }]));
    assert_eq!(drv.get_measurement_period(), Ok(4095));
    drv.free();
}

#[test]
fn measurement_mode_setting_and_reading() {
    let mode = MeasurementMode {
        pwm_out_enable: true,
        pwm_mode: PwmMode::SinglePulse,
        baseline_offset_comp: BaselineOffsetCompensation::Forced,
        operating_mode: OperatingMode::Continuous,
    };
    let script = vec![ScriptStep::AckWrite, ScriptStep::Reply1 { b0: 0b0010_1010 }];
    let mut drv = PasCo2::new(ScriptedBus::new(script));
    assert_eq!(drv.set_measurement_mode(mode), Ok(()));
    assert_eq!(drv.get_measurement_mode(), Ok(mode));
    let bus = drv.free();
    assert_eq!(
        bus.recorded(),
        &vec![
            BusOp::Write1 { reg: 0x04, b0: 0b0010_1010 },
            BusOp::Read1 { reg: 0x04, b0: 0b0010_1010 },
        ]
    );
}

#[test]
fn co2_ppm_reads_are_signed_big_endian() {
    let script = vec![
        ScriptStep::Reply2 { b0: 0x01, b1: 0xEA },
        ScriptStep::Reply2 { b0: 0xFF, b1: 0x38 },
    ];
    let mut drv = PasCo2::new(ScriptedBus::new(script));
    assert_eq!(drv.get_co2_ppm(), Ok(490));
    assert_eq!(drv.get_co2_ppm(), Ok(-200));
    let bus = drv.free();
    assert_eq!(
        bus.recorded(),
        &vec![
            BusOp::Read2 { reg: 0x05, b0: 0x01, b1: 0xEA },
            BusOp::Read2 { reg: 0x05, b0: 0xFF, b1: 0x38 },
        ]
    );
}

#[test]
fn interrupt_config_setting_and_reading() {
    let config = InterruptConfig {
        int_pin_active_high: true,
        int_function_config: IntFunctionConfig::DataReady,
        alarm_crossing_up: true,
    };
    let script = vec![ScriptStep::AckWrite, ScriptStep::Reply1 { b0: 0b0001_0101 }];
    let mut drv = PasCo2::new(ScriptedBus::new(script));
    assert_eq!(drv.set_interrupt_config(config), Ok(()));
    assert_eq!(drv.get_interrupt_config(), Ok(config));
    let bus = drv.free();
    assert_eq!(
        bus.recorded(),
        &vec![
            BusOp::Write1 { reg: 0x08, b0: 0b0001_0101 },
            BusOp::Read1 { reg: 0x08, b0: 0b0001_0101 },
        ]
    );
}

#[test]
fn interrupt_config_read_of_reserved_code_is_a_response_error() {
    let script = vec![ScriptStep::Reply1 { b0: 0b0000_1010 }];
    let mut drv = PasCo2::new(ScriptedBus::new(script));
    assert_eq!(
        drv.get_interrupt_config(),
        Err(Error::Response(ResponseError::InvalidRegisterValue))
    );
    drv.free();
}

#[test]
fn alarm_threshold_writes_and_reads_signed_big_endian() {
    let script = vec![ScriptStep::AckWrite, ScriptStep::Reply2 { b0: 0x01, b1: 0xF4 }];
    let mut drv = PasCo2::new(ScriptedBus::new(script));
    assert_eq!(drv.set_alarm_threshold(500), Ok(()));
    assert_eq!(drv.get_alarm_threshold(), Ok(500));
    let bus = drv.free();
    assert_eq!(
        bus.recorded(),
        &vec![
            BusOp::Write2 { reg: 0x09, b0: 0x01, b1: 0xF4 },
            BusOp::Read2 { reg: 0x09, b0: 0x01, b1: 0xF4 },
        ]
    );
}

#[test]
fn pressure_compensation_writes_and_reads_big_endian() {
    let script = vec![ScriptStep::AckWrite, ScriptStep::Reply2 { b0: 0x03, b1: 0xF5 }];
    let mut drv = PasCo2::new(ScriptedBus::new(script));
    assert_eq!(drv.set_pressure_compensation(1013), Ok(()));
    assert_eq!(drv.get_pressure_compensation(), Ok(1013));
    let bus = drv.free();
    assert_eq!(
        bus.recorded(),
        &vec![
            BusOp::Write2 { reg: 0x0B, b0: 0x03, b1: 0xF5 },
            BusOp::Read2 { reg: 0x0B, b0: 0x03, b1: 0xF5 },
        ]
    );
}

#[test]
fn aboc_reference_goes_to_the_calibration_register() {
    let script = vec![ScriptStep::AckWrite, ScriptStep::Reply2 { b0: 0x01, b1: 0x90 }];
    let mut drv = PasCo2::new(ScriptedBus::new(script));
    assert_eq!(drv.set_aboc(400), Ok(()));
    assert_eq!(drv.get_aboc(), Ok(400));
    let bus = drv.free();
    assert_eq!(
        bus.recorded(),
        &vec![
            BusOp::Write2 { reg: 0x0D, b0: 0x01, b1: 0x90 },
            BusOp::Read2 { reg: 0x0D, b0: 0x01, b1: 0x90 },
        ]
    );
}

#[test]
fn scratchpad_write_read_hands_back_the_byte_read() {
    let script = vec![ScriptStep::AckWrite, ScriptStep::Reply1 { b0: 0xA5 }];
    let mut drv = PasCo2::new(ScriptedBus::new(script));
    assert_eq!(drv.test_write_read(0xA5), Ok(0xA5));
    let bus = drv.free();
    assert_eq!(
        bus.recorded(),
        &vec![
            BusOp::Write1 { reg: 0x0F, b0: 0xA5 },
            BusOp::Read1 { reg: 0x0F, b0: 0xA5 },
        ]
    );
}

#[test]
fn soft_reset_writes_the_command_code() {
    let script = vec![ScriptStep::AckWrite, ScriptStep::AckWrite];
    let mut drv = PasCo2::new(ScriptedBus::new(script));
    assert_eq!(drv.soft_reset(SoftReset::SoftReset), Ok(()));
    assert_eq!(drv.soft_reset(SoftReset::SaveForceCalibNvm), Ok(()));
    let bus = drv.free();
    assert_eq!(
        bus.recorded(),
        &vec![
            BusOp::Write1 { reg: 0x10, b0: 0xA3 },
            BusOp::Write1 { reg: 0x10, b0: 0xCF },
        ]
    );
}

#[test]
fn a_nack_on_a_plain_operation_is_an_interface_error() {
    let mut drv = PasCo2::new(ScriptedBus::new(vec![ScriptStep::Nack]));
    assert_eq!(drv.get_status(), Err(Error::Interface(BusError::NoAcknowledge)));
    let bus = drv.free();
    assert_eq!(bus.recorded(), &Vec::<BusOp>::new());
}

#[test]
fn forced_compensation_full_sequence_for_490() {
    let script = vec![
        ScriptStep::Reply1 { b0: 0x24 },            // entry mode read
        ScriptStep::AckWrite,                       // idle write
        ScriptStep::AckWrite,                       // ten second cadence
        ScriptStep::AckWrite,                       // reference value
        ScriptStep::AckWrite,                       // forced continuous
        ScriptStep::Reply1 { b0: 0x00 },            // poll: not ready
        ScriptStep::Reply1 { b0: 0x10 },            // poll: ready
        ScriptStep::Reply2 { b0: 0x01, b1: 0xE0 },  // first reading
        ScriptStep::Reply1 { b0: 0x10 },
        ScriptStep::Reply2 { b0: 0x01, b1: 0xE6 },  // second reading
        ScriptStep::Reply1 { b0: 0x10 },
        ScriptStep::Reply2 { b0: 0x01, b1: 0xEA },  // third reading
        ScriptStep::AckWrite,                       // closing idle write
    ];
    let mut drv = PasCo2::new(ScriptedBus::new(script));
    let mut delay = RecordedDelay::new();
    assert_eq!(drv.do_forced_compensation(490, &mut delay), Ok(()));
    let bus = drv.free();
    assert_eq!(
        bus.recorded(),
        &vec![
            BusOp::Read1 { reg: 0x04, b0: 0x24 },
            BusOp::Write1 { reg: 0x04, b0: 0x24 },
            BusOp::Write2 { reg: 0x02, b0: 0x00, b1: 0x0A },
            BusOp::Write2 { reg: 0x0D, b0: 0x01, b1: 0xEA },
            BusOp::Write1 { reg: 0x04, b0: 0x2A },
            BusOp::Read1 { reg: 0x07, b0: 0x00 },
            BusOp::Read1 { reg: 0x07, b0: 0x10 },
            BusOp::Read2 { reg: 0x05, b0: 0x01, b1: 0xE0 },
            BusOp::Read1 { reg: 0x07, b0: 0x10 },
            BusOp::Read2 { reg: 0x05, b0: 0x01, b1: 0xE6 },
            BusOp::Read1 { reg: 0x07, b0: 0x10 },
            BusOp::Read2 { reg: 0x05, b0: 0x01, b1: 0xEA },
            BusOp::Write1 { reg: 0x04, b0: 0x28 },
        ]
    );
    // One backoff for the unready poll, then the settle wait.
    assert_eq!(delay.recorded(), &vec![100u32, 1000u32]);
}

#[test]
fn forced_compensation_retries_after_a_nack_poll() {
    let script = vec![
        ScriptStep::Reply1 { b0: 0x24 },
        ScriptStep::AckWrite,
        ScriptStep::AckWrite,
        ScriptStep::AckWrite,
        ScriptStep::AckWrite,
        ScriptStep::Nack,                           // one status poll sees no acknowledge
        ScriptStep::Reply1 { b0: 0x10 },
        ScriptStep::Reply2 { b0: 0x01, b1: 0xE0 },
        ScriptStep::Reply1 { b0: 0x10 },
        ScriptStep::Reply2 { b0: 0x01, b1: 0xE6 },
        ScriptStep::Reply1 { b0: 0x10 },
        ScriptStep::Reply2 { b0: 0x01, b1: 0xEA },
        ScriptStep::AckWrite,
    ];
    let mut drv = PasCo2::new(ScriptedBus::new(script));
    let mut delay = RecordedDelay::new();
    assert_eq!(drv.do_forced_compensation(490, &mut delay), Ok(()));
    let bus = drv.free();
    // The refused transaction leaves no trace in the transcript; the
    // sequence still runs to completion.
    assert_eq!(bus.recorded().len(), 12);
    assert_eq!(bus.recorded()[11], BusOp::Write1 { reg: 0x04, b0: 0x28 });
    assert_eq!(delay.recorded(), &vec![100u32, 1000u32]);
}

#[test]
fn forced_compensation_aborts_on_a_write_fault() {
    let script = vec![
        ScriptStep::Reply1 { b0: 0x24 },
        ScriptStep::AckWrite,
        ScriptStep::Fault,                          // cadence write fails hard
    ];
    let mut drv = PasCo2::new(ScriptedBus::new(script));
    let mut delay = RecordedDelay::new();
    assert_eq!(
        drv.do_forced_compensation(490, &mut delay),
        Err(Error::Interface(BusError::Other))
    );
    let bus = drv.free();
    // Nothing more is written after the failing step.
    assert_eq!(
        bus.recorded(),
        &vec![
            BusOp::Read1 { reg: 0x04, b0: 0x24 },
            BusOp::Write1 { reg: 0x04, b0: 0x24 },
        ]
    );
    assert_eq!(delay.recorded(), &Vec::<u32>::new());
}

#[test]
fn forced_compensation_aborts_on_a_nack_outside_the_poll() {
    let script = vec![
        ScriptStep::Reply1 { b0: 0x24 },
        ScriptStep::Nack,                           // the idle write is not acknowledged
    ];
    let mut drv = PasCo2::new(ScriptedBus::new(script));
    let mut delay = RecordedDelay::new();
    assert_eq!(
        drv.do_forced_compensation(490, &mut delay),
        Err(Error::Interface(BusError::NoAcknowledge))
    );
    let bus = drv.free();
    assert_eq!(bus.recorded(), &vec![BusOp::Read1 { reg: 0x04, b0: 0x24 }]);
}

#[test]
fn poll_decision_rule_retries_only_on_unready_and_nack() {
    let ready = MeasurementStatus { data_ready: true, int_active: false, alarm: false };
    let not_ready = MeasurementStatus { data_ready: false, int_active: true, alarm: true };
    assert_eq!(poll_step(Ok(ready)), PollStep::Sample);
    assert_eq!(poll_step(Ok(not_ready)), PollStep::Retry);
    assert_eq!(
        poll_step(Err(Error::Interface(BusError::NoAcknowledge))),
        PollStep::Retry
    );
    assert_eq!(
        poll_step(Err(Error::Interface(BusError::Other))),
        PollStep::Abort(Error::Interface(BusError::Other))
    );
}

#[test]
fn forced_compensation_times_out_when_data_never_comes() {
    let mut script = vec![
        ScriptStep::Reply1 { b0: 0x24 },
        ScriptStep::AckWrite,
        ScriptStep::AckWrite,
        ScriptStep::AckWrite,
        ScriptStep::AckWrite,
    ];
    for _ in 0..MAX_POLL_ATTEMPTS {
        script.push(ScriptStep::Reply1 { b0: 0x00 });
    }
    let mut drv = PasCo2::new(ScriptedBus::new(script));
    let mut delay = RecordedDelay::new();
    assert_eq!(drv.do_forced_compensation(490, &mut delay), Err(Error::Timeout));
    let bus = drv.free();
    assert_eq!(bus.recorded().len(), 5 + MAX_POLL_ATTEMPTS as usize);
    assert_eq!(delay.recorded().len(), MAX_POLL_ATTEMPTS as usize);
}
