use sem::controller_error::{ControllerError, USB_MAX_PACKET_SIZE};
use sem::firmware::commands::{
    host_response, route_command, CommandReader, ReadEvent, ReadStep, ResponseReader, Route,
};
use sem::host::controller::{
    answer, frame_command, is_response_complete, parse_response, Destination,
};
use std::str::FromStr;

const ALL: [ControllerError; 10] = [
    ControllerError::CommandMissingDestination,
    ControllerError::CommandTimeout,
    ControllerError::CommandTooLong,
    ControllerError::CommandTooShort,
    ControllerError::Disconnected,
    ControllerError::ResponseNotUtf8,
    ControllerError::ResponseTimeout,
    ControllerError::ResponseTooLong,
    ControllerError::Unknown,
    ControllerError::UnknownDestination,
];

#[test]
fn error_names() {
    assert_eq!(ControllerError::CommandTooShort.as_str(), "COMMAND_TOO_SHORT");
    assert_eq!(ControllerError::ResponseNotUtf8.as_str(), "RESPONSE_NOT_UTF8");
    assert_eq!(ControllerError::UnknownDestination.as_str(), "UNKNOWN_DESTINATION");
    assert_eq!(USB_MAX_PACKET_SIZE, 64);
}

#[test]
fn every_error_is_read_back_from_its_name() {
    for e in ALL {
        assert_eq!(ControllerError::from_name(e.as_str()), e);
        assert_eq!(ControllerError::from_str(e.as_str()).unwrap(), e);
    }
    assert_eq!(ControllerError::from_name("NOT_AN_ERROR"), ControllerError::Unknown);
}

#[test]
fn error_response_is_prefixed_and_terminated() {
    assert_eq!(ControllerError::ResponseTimeout.to_response(), "ERR:RESPONSE_TIMEOUT\r\n");
}

#[test]
fn every_reported_error_is_read_back_by_the_host() {
    for e in ALL {
        let bytes = e.to_response().into_bytes();
        assert!(is_response_complete(&bytes));
        assert_eq!(parse_response(bytes).unwrap_err(), e);
    }
}

#[test]
fn commands_are_framed_with_destination_and_terminator() {
    assert_eq!(frame_command(Destination::ADC, "?GA1"), "ADC:?GA1\r\n");
    assert_eq!(frame_command(Destination::TMP, "0010030902=?107"), "TMP:0010030902=?107\r\n");
    assert_eq!(frame_command(Destination::RLY, "?"), "RLY:?\r\n");
    assert_eq!(Destination::RLY.as_str(), "RLY");
}

#[test]
fn responses_end_with_crlf() {
    assert!(!is_response_complete(b""));
    assert!(!is_response_complete(b"1.0E-03\r"));
    assert!(is_response_complete(b"1.0E-03\r\n"));
}

#[test]
fn responses_are_parsed() {
    assert_eq!(parse_response(b"1.00E-03\r\n".to_vec()).unwrap(), "1.00E-03");
    assert_eq!(parse_response(b"ERR:COMMAND_TIMEOUT\r\n".to_vec()).unwrap_err(), ControllerError::CommandTimeout);
    assert_eq!(parse_response(b"ERR:gibberish\r\n".to_vec()).unwrap_err(), ControllerError::Unknown);
    assert_eq!(parse_response(vec![0xff, b'\r', b'\n']).unwrap_err(), ControllerError::ResponseNotUtf8);
    assert_eq!(answer(String::from("ERR")).unwrap(), "ERR");
}

fn feed_command(reader: &mut CommandReader, bytes: &[u8]) -> ReadStep {
    let mut step = ReadStep::Continue;
    for &b in bytes {
        step = reader.step(ReadEvent::Byte(b));
        if step != ReadStep::Continue {
            return step;
        }
    }
    step
}

#[test]
fn a_framed_command_reaches_its_device() {
    let line = frame_command(Destination::ADC, "?GA1");
    let mut reader = CommandReader::new();
    let step = feed_command(&mut reader, line.as_bytes());
    assert_eq!(step, ReadStep::Done(9));
    assert_eq!(reader.received(), b"ADC:?GA1\r");
    let (route, body) = route_command(reader.received()).unwrap();
    assert_eq!(route, Route::Adc);
    assert_eq!(body, b"?GA1\r".to_vec());

    // The newline after the carriage return starts no new command.
    let mut next = CommandReader::new();
    assert_eq!(next.step(ReadEvent::Byte(b'\n')), ReadStep::Continue);
    assert_eq!(next.received(), b"");
}

#[test]
fn a_command_for_the_relays_is_refused_by_the_firmware() {
    let line = frame_command(Destination::RLY, "1");
    let mut reader = CommandReader::new();
    assert_eq!(feed_command(&mut reader, line.as_bytes()), ReadStep::Done(6));
    assert_eq!(route_command(reader.received()).unwrap_err(), ControllerError::UnknownDestination);
}

#[test]
fn a_newline_terminated_command_is_sent_with_a_carriage_return() {
    let mut reader = CommandReader::new();
    assert_eq!(feed_command(&mut reader, b"TMP:0010030902=?107\n"), ReadStep::Done(20));
    let (route, body) = route_command(reader.received()).unwrap();
    assert_eq!(route, Route::Tmp);
    assert_eq!(body, b"0010030902=?107\r".to_vec());
}

#[test]
fn bad_commands_are_refused() {
    let mut reader = CommandReader::new();
    assert_eq!(feed_command(&mut reader, b"ADC:\r"), ReadStep::Fail(ControllerError::CommandTooShort));
    let mut reader = CommandReader::new();
    assert_eq!(feed_command(&mut reader, b"ADCX?GA1\r"), ReadStep::Fail(ControllerError::CommandMissingDestination));
    let mut reader = CommandReader::new();
    let long = vec![b'A'; 70];
    assert_eq!(feed_command(&mut reader, &long), ReadStep::Fail(ControllerError::CommandTooLong));
}

#[test]
fn timeouts_wait_for_a_command_then_fail_it() {
    let mut reader = CommandReader::new();
    assert_eq!(reader.step(ReadEvent::Timeout), ReadStep::Continue);
    assert_eq!(reader.step(ReadEvent::Byte(b'A')), ReadStep::Continue);
    assert_eq!(reader.step(ReadEvent::Timeout), ReadStep::Fail(ControllerError::CommandTimeout));
    let mut reader = CommandReader::new();
    assert_eq!(reader.step(ReadEvent::Disconnected), ReadStep::Fail(ControllerError::Disconnected));
    let mut reader = CommandReader::new();
    assert_eq!(reader.step(ReadEvent::Failed), ReadStep::Fail(ControllerError::Unknown));
}

#[test]
fn a_device_response_reaches_the_host() {
    let mut reader = ResponseReader::new();
    let mut step = ReadStep::Continue;
    for &b in b"1.00E-03\r" {
        step = reader.step(ReadEvent::Byte(b));
    }
    assert_eq!(step, ReadStep::Done(9));
    let answer = host_response(reader.received()).unwrap();
    assert_eq!(answer, b"1.00E-03\r\n".to_vec());
    assert!(is_response_complete(&answer));
    assert_eq!(parse_response(answer).unwrap(), "1.00E-03");
}

#[test]
fn device_response_errors() {
    let mut reader = ResponseReader::new();
    assert_eq!(reader.step(ReadEvent::Timeout), ReadStep::Fail(ControllerError::ResponseTimeout));
    let mut reader = ResponseReader::new();
    let mut step = ReadStep::Continue;
    for _ in 0..63 {
        step = reader.step(ReadEvent::Byte(b'x'));
        if step != ReadStep::Continue {
            break;
        }
    }
    assert_eq!(step, ReadStep::Fail(ControllerError::ResponseTooLong));
    assert_eq!(host_response(&[b'x'; 63]).unwrap_err(), ControllerError::ResponseTooLong);
}
