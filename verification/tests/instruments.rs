use sem::controller_error::ControllerError;
use sem::host::adc::{
    check_response, is_error_number_readable, is_pressure_readable, pressure_query, split_pressure, unit_command, unit_query, AdcError, AdcState,
    PressureText, PressureUnit,
};
use sem::host::oscilloscope::{
    measure_command, poll_decision, reset_commands, vertical_scale_query, voltage_query,
    MeasurementState, OscilloscopeError, PollDecision, POLL_ATTEMPTS,
};
use sem::host::power_supply::{
    output_command, output_enabled_from_response, output_enabled_query, current_query,
    polarity_from_relays, relay_query, Polarity, PowerSupplyError,
};
use sem::host::tmp::{
    calculate_checksum, check_set_response, encode_telegram, is_response_readable,
    is_running_value, parse_operating_time, parse_response, parse_rotation_speed, read_command,
    running_value, set_command, Action, Parameter, TmpError,
};
use sem::host::vacuum_control::{graph_start, ControlAction, ControlKey, ControlState};

#[test]
fn adc_commands() {
    assert_eq!(unit_query(), "?US");
    assert_eq!(unit_command(PressureUnit::Millibar), "!US1");
    assert_eq!(unit_command(PressureUnit::Volt), "!US0");
    assert_eq!(pressure_query(1), "?GA1");
    assert_eq!(pressure_query(12), "?GA12");
    assert_eq!(PressureUnit::Torr.symbol(), "Torr");
    assert_eq!(PressureUnit::Pascal.unit_number(), "2");
}

#[test]
fn adc_errors_are_read_from_their_numbers() {
    assert_eq!(check_response(String::from("1.00E-03")).unwrap(), "1.00E-03");
    assert_eq!(check_response(String::from("Err00")).unwrap_err(), AdcError::NoError);
    assert_eq!(check_response(String::from("Err54")).unwrap_err(), AdcError::InvalidGaugeNumber);
    assert_eq!(check_response(String::from("Err91")).unwrap_err(), AdcError::GaugeTurnOnInhibitedByLink);
    assert_eq!(check_response(String::from("Err77")).unwrap_err(), AdcError::Unknown(String::from("77")));
    // The error number is bytes 3 and 4.
    assert_eq!(check_response(String::from("Erré")).unwrap_err(), AdcError::Unknown(String::from("é")));
    assert!(is_error_number_readable("Erré"));
    assert!(!is_error_number_readable("Err5"));
    assert!(!is_error_number_readable("Err5é"));
    assert!(is_error_number_readable("1.00E-03"));
    assert_eq!(AdcError::from_error_number("13"), AdcError::AimGaugeNotStriking);
    assert_eq!(AdcError::from(ControllerError::CommandTimeout), AdcError::Controller(ControllerError::CommandTimeout));
}

#[test]
fn adc_unit_is_learnt_once() {
    let mut state = AdcState::new();
    assert!(state.needs_unit_query());
    assert_eq!(state.record_unit_response(String::from("1")).unwrap(), PressureUnit::Millibar);
    assert!(!state.needs_unit_query());
    assert_eq!(state.pressure_unit, Some(PressureUnit::Millibar));

    let mut state = AdcState::new();
    assert_eq!(
        state.record_unit_response(String::from("7")).unwrap_err(),
        AdcError::InvalidPressureUnit(String::from("7"))
    );
    assert!(state.needs_unit_query());
}

#[test]
fn adc_unit_change_is_confirmed_by_no_error() {
    let mut state = AdcState::new();
    assert!(state.finish_set_unit(PressureUnit::Torr, Err(AdcError::NoError)).is_ok());
    assert_eq!(state.pressure_unit, Some(PressureUnit::Torr));

    let mut state = AdcState::new();
    assert_eq!(
        state.finish_set_unit(PressureUnit::Torr, Ok(String::from("1"))).unwrap_err(),
        AdcError::Unknown(String::from("1"))
    );
    assert_eq!(
        state.finish_set_unit(PressureUnit::Torr, Err(AdcError::MessageTooLong)).unwrap_err(),
        AdcError::MessageTooLong
    );
    assert_eq!(state.pressure_unit, None);
}

#[test]
fn pressure_readings_are_split() {
    assert_eq!(
        split_pressure(PressureUnit::Millibar, String::from("1.00E-03")).unwrap(),
        PressureText::Scientific { mantissa: String::from("1.00"), exponent: -3 }
    );
    assert_eq!(
        split_pressure(PressureUnit::Volt, String::from("4.5")).unwrap(),
        PressureText::Volts(String::from("4.5"))
    );
    assert_eq!(
        split_pressure(PressureUnit::Millibar, String::from("1.00E")).unwrap_err(),
        AdcError::InvalidPressureFormat
    );
    assert_eq!(
        split_pressure(PressureUnit::Pascal, String::from("1.00E-x3")).unwrap_err(),
        AdcError::InvalidPressureFormat
    );
}

#[test]
fn pressure_readings_are_measured_in_bytes() {
    // Eight characters but nine bytes: not the ADC's format.
    assert_eq!(
        split_pressure(PressureUnit::Millibar, String::from("1.00é+03")).unwrap_err(),
        AdcError::InvalidPressureFormat
    );
    // Eight bytes, cut at bytes 4 and 5: the mantissa is left to fail as a
    // number.
    assert!(is_pressure_readable(PressureUnit::Millibar, "é.0E+03"));
    assert_eq!(
        split_pressure(PressureUnit::Millibar, String::from("é.0E+03")).unwrap(),
        PressureText::Scientific { mantissa: String::from("é.0"), exponent: 3 }
    );
    // Byte 5 falls inside a character, so the reading can't be cut there.
    assert!(!is_pressure_readable(PressureUnit::Millibar, "1.00é03"));
    assert!(is_pressure_readable(PressureUnit::Volt, "1.00é03"));
    assert!(is_pressure_readable(PressureUnit::Millibar, "1.00E-03"));
}

#[test]
fn tmp_checksum_is_the_sum_modulo_256() {
    assert_eq!(calculate_checksum("0010030902=?").unwrap(), 107);
    assert_eq!(calculate_checksum("").unwrap(), 0);
    assert_eq!(calculate_checksum("0°").unwrap_err(), TmpError::NonAsciiCharacter('°'));
}

#[test]
fn tmp_telegrams() {
    assert_eq!(encode_telegram("001", Action::Read, "309", "=?").unwrap(), "0010030902=?107");
    assert_eq!(read_command("001", Parameter::CurrentRotationSpeed).unwrap(), "0010030902=?107");
    assert_eq!(Action::Describe.as_str(), "10");
    assert_eq!(Parameter::Running.as_str(), "010");
    assert_eq!(Parameter::OperatingTime.as_str(), "311");
    let set = set_command("001", Parameter::Running, running_value(true)).unwrap();
    assert_eq!(set, "0011001006111111015");
    assert_eq!(running_value(false), "000000");
}

#[test]
fn tmp_responses_are_checked() {
    assert_eq!(parse_response("001", "309", "0011030906000633032").unwrap(), "000633");
    assert_eq!(parse_response("001", "309", "0011030906000633033").unwrap_err(), TmpError::InvalidChecksum);
    assert_eq!(parse_response("002", "309", "0011030906000633032").unwrap_err(), TmpError::InvalidResponse);
    assert_eq!(parse_response("001", "308", "0011030906000633032").unwrap_err(), TmpError::InvalidResponse);
    assert_eq!(parse_response("001", "309", "0010030906000633032").unwrap_err(), TmpError::InvalidResponse);
    assert_eq!(parse_response("001", "309", "0011030907000633032").unwrap_err(), TmpError::InvalidResponse);
    assert_eq!(parse_response("001", "309", "0011030906_RANGE192").unwrap_err(), TmpError::ValueOutsideRange);
    assert_eq!(parse_response("001", "309", "0011030906_LOGIC000").unwrap_err(), TmpError::Logic);
    assert_eq!(
        parse_response("001", "309", "0011030906NO_DEF000").unwrap_err(),
        TmpError::InvalidParameter(String::from("309"))
    );
    assert_eq!(parse_response("001", "309", "0011030906000633abc").unwrap_err(), TmpError::InvalidResponse);
}

#[test]
fn tmp_responses_are_measured_in_bytes() {
    // The length counts bytes: a two-byte character is two of them, and is
    // then refused by the checksum as not ASCII.
    assert_eq!(
        parse_response("001", "309", "0011030902é123").unwrap_err(),
        TmpError::NonAsciiCharacter('é')
    );
    assert_eq!(parse_response("001", "309", "0011030901é123").unwrap_err(), TmpError::InvalidResponse);
    // The data would end inside a character.
    assert!(!is_response_readable("001", "309", "0011030901é12"));
    assert!(is_response_readable("001", "309", "0011030902é123"));
}

#[test]
fn tmp_short_responses() {
    assert!(!is_response_readable("001", "309", "00"));
    assert!(is_response_readable("001", "309", "002"));
    assert_eq!(parse_response("001", "309", "002").unwrap_err(), TmpError::InvalidResponse);
    assert!(!is_response_readable("001", "309", "0011030"));
    assert!(is_response_readable("001", "309", "0011030906"));
}

#[test]
fn tmp_values() {
    assert_eq!(parse_rotation_speed("001500").unwrap(), 1500);
    assert_eq!(parse_rotation_speed("+00015").unwrap(), 15);
    assert_eq!(parse_rotation_speed("099999").unwrap_err(), TmpError::InvalidResponse);
    assert_eq!(parse_operating_time("012345").unwrap(), 12345);
    assert_eq!(parse_operating_time("-1").unwrap_err(), TmpError::InvalidResponse);
    assert!(is_running_value("111111"));
    assert!(!is_running_value("000000"));
    assert!(check_set_response("111111", "111111").is_ok());
    assert_eq!(check_set_response("111111", "000000").unwrap_err(), TmpError::InvalidResponse);
    assert_eq!(TmpError::from(ControllerError::Unknown), TmpError::Controller(ControllerError::Unknown));
}

#[test]
fn relays_read_back_what_they_were_set_to() {
    for p in [Polarity::Forward, Polarity::Nil, Polarity::Reverse] {
        assert_eq!(polarity_from_relays(p.relay_command()).unwrap(), p);
    }
    assert_eq!(polarity_from_relays(" 3\r\n").unwrap(), Polarity::Nil);
    match polarity_from_relays(" 4 ") {
        Err(PowerSupplyError::UnknownRelayPolarity(s)) => assert_eq!(s, "4"),
        other => panic!("unexpected {:?}", other),
    }
    assert_eq!(Polarity::default(), Polarity::Nil);
    assert_eq!(Polarity::Reverse.to_string(), "Reverse");
    assert_eq!(Polarity::Forward.name(), "Forward");
    assert_eq!(relay_query(), "?");
}

#[test]
fn power_supply_output() {
    assert!(output_enabled_from_response("1\n"));
    assert!(!output_enabled_from_response("0\n"));
    assert!(!output_enabled_from_response("10"));
    assert_eq!(output_command(true), ":OUTPut CH1,1");
    assert_eq!(output_command(false), ":OUTPut CH1,0");
    assert_eq!(output_enabled_query(), ":OUTPut? CH1");
    assert_eq!(current_query(), ":MEASure:CURRent? CH1");
}

#[test]
fn polling_gives_up_after_the_last_attempt() {
    match poll_decision::<f64>(1, Ok(Err(OscilloscopeError::ClippedVoltage))) {
        PollDecision::Retry { next_attempt } => assert_eq!(next_attempt, 2),
        other => panic!("unexpected {:?}", other),
    }
    match poll_decision::<f64>(POLL_ATTEMPTS, Ok(Err(OscilloscopeError::ClippedVoltage))) {
        PollDecision::Finish(Err(OscilloscopeError::ClippedVoltage)) => {}
        other => panic!("unexpected {:?}", other),
    }
    match poll_decision::<u8>(1, Err(OscilloscopeError::NotImplemented)) {
        PollDecision::Finish(Err(OscilloscopeError::NotImplemented)) => {}
        other => panic!("unexpected {:?}", other),
    }
    match poll_decision::<u8>(2, Ok(Ok(7))) {
        PollDecision::Finish(Ok(7)) => {}
        other => panic!("unexpected {:?}", other),
    }
}

#[test]
fn the_measurement_is_added_once_until_a_reset() {
    let mut state = MeasurementState::new();
    assert!(state.start_voltage_measurement());
    assert!(!state.start_voltage_measurement());
    state.reset();
    assert!(state.start_voltage_measurement());
    assert_eq!(measure_command(), ":MEASure:ITEM VAVG,CHANnel1");
    assert_eq!(voltage_query(), ":MEASure:ITEM? VAVG,CHANnel1");
    assert_eq!(vertical_scale_query(), ":CHANnel1:SCALe?");
}

#[test]
fn reset_sequence() {
    let commands = reset_commands();
    assert_eq!(commands.len(), 12);
    assert_eq!(commands[0], ":STOP");
    assert_eq!(commands[4], ":CHANnel2:DISPLAY OFF");
    assert_eq!(commands[7], ":TIMebase:SCALe 0.002");
    assert_eq!(commands[11], ":RUN");
}

#[test]
fn starting_the_tmp_takes_a_confirmation_at_low_pressure() {
    let mut state = ControlState::default();
    assert_eq!(state.handle_key(ControlKey::Confirm, Some(true)), ControlAction::Nothing);
    assert_eq!(state.handle_key(ControlKey::TogglePump, Some(true)), ControlAction::Nothing);
    assert!(state.show_roughing_pump_confirmation);
    assert_eq!(state.shortcuts(), "[Esc / Q]: Dismiss   [P]: Turn TMP on");
    assert_eq!(state.handle_key(ControlKey::Confirm, Some(true)), ControlAction::StartTmp);
    assert!(state.tmp_running);
    assert_eq!(state.shortcuts(), "[Esc / Q]: Quit   [P]: Turn TMP off");
    assert_eq!(state.handle_key(ControlKey::TogglePump, Some(true)), ControlAction::StopTmp);
    assert_eq!(state.handle_key(ControlKey::Dismiss, None), ControlAction::Quit);
}

#[test]
fn high_pressure_shows_an_error_instead() {
    let mut state = ControlState::default();
    assert_eq!(state.handle_key(ControlKey::TogglePump, Some(false)), ControlAction::Nothing);
    assert!(state.show_tmp_pressure_error);
    assert_eq!(state.handle_key(ControlKey::Confirm, None), ControlAction::Nothing);
    assert!(!state.tmp_running);
    assert_eq!(state.handle_key(ControlKey::Dismiss, None), ControlAction::Nothing);
    assert!(!state.show_tmp_pressure_error);
    let mut state = ControlState::default();
    assert_eq!(state.handle_key(ControlKey::TogglePump, None), ControlAction::Nothing);
    assert_eq!(state, ControlState::default());
    assert_eq!(graph_start(10), 0);
    assert_eq!(graph_start(45), 15);
}
