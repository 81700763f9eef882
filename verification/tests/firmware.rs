use sem::controller_error::ControllerError;
use sem::firmware::bridge::{
    bridge_device_command, bridge_send_command_error, bridge_send_response_error,
    BridgeCommandReader, BridgeError, BridgeResponseReader, BridgeStep,
};
use sem::firmware::commands::{error_report, ReadEvent, BUFFER_LEN};
use sem::firmware::string_buffer::StringBuffer;
use std::fmt::Write;

#[test]
fn string_buffer_holds_what_was_written() {
    let mut buffer: StringBuffer<16> = StringBuffer::new();
    assert_eq!(buffer.to_str().unwrap(), "");
    buffer.write_str("ADC:").unwrap();
    Write::write_str(&mut buffer, "?GA1").unwrap();
    assert_eq!(buffer.to_str().unwrap(), "ADC:?GA1");
}

#[test]
fn string_buffer_refuses_what_does_not_fit() {
    let mut buffer: StringBuffer<4> = StringBuffer::new();
    buffer.write_str("abc").unwrap();
    assert!(buffer.write_str("de").is_err());
    assert_eq!(buffer.to_str().unwrap(), "abc");
    buffer.write_str("d").unwrap();
    assert_eq!(buffer.to_str().unwrap(), "abcd");
    let mut buffer: StringBuffer<4> = StringBuffer::new();
    buffer.write_str("ab").unwrap();
    buffer.write_str("cd").unwrap();
    assert!(buffer.write_str("e").is_err());
    assert_eq!(buffer.to_str().unwrap(), "abcd");
    // A two-byte character doesn't fit in the one byte left of three.
    let mut buffer: StringBuffer<3> = StringBuffer::new();
    buffer.write_str("ab").unwrap();
    assert!(buffer.write_str("é").is_err());
    assert_eq!(buffer.to_str().unwrap(), "ab");
}

#[test]
fn errors_are_reported_unless_the_host_left() {
    assert_eq!(error_report(ControllerError::Disconnected), None);
    assert_eq!(error_report(ControllerError::CommandTooLong), Some(String::from("ERR:COMMAND_TOO_LONG\r\n")));
    assert_eq!(BUFFER_LEN, 63);
}

#[test]
fn bridge_reads_a_command_to_its_newline() {
    let mut reader = BridgeCommandReader::new();
    let mut step = BridgeStep::Continue;
    for &b in b"?GA1\n" {
        step = reader.step(ReadEvent::Byte(b));
    }
    assert_eq!(step, BridgeStep::Done(5));
    assert_eq!(bridge_device_command(reader.received()), b"?GA1\r".to_vec());
}

#[test]
fn bridge_answers_with_a_newline() {
    let mut reader = BridgeResponseReader::new();
    let mut step = BridgeStep::Continue;
    for &b in b"1.0E-03\r" {
        step = reader.step(ReadEvent::Byte(b));
    }
    assert_eq!(step, BridgeStep::Done(8));
    assert_eq!(reader.received(), b"1.0E-03\n");
}

#[test]
fn bridge_errors() {
    let mut reader = BridgeCommandReader::new();
    assert_eq!(reader.step(ReadEvent::Disconnected), BridgeStep::Fail(BridgeError::Disconnected));
    assert_eq!(
        reader.step(ReadEvent::Timeout),
        BridgeStep::Fail(BridgeError::Generic("Timeout while reading command from computer via USB\n"))
    );
    let mut reader = BridgeResponseReader::new();
    assert_eq!(
        reader.step(ReadEvent::Failed),
        BridgeStep::Fail(BridgeError::Generic("Error while reading response from ADC via UART\n"))
    );
    assert_eq!(bridge_send_command_error(), "Error while sending command to ADC via UART\n");
    assert_eq!(bridge_send_response_error(true), BridgeError::Disconnected);
    assert_eq!(
        bridge_send_response_error(false),
        BridgeError::Generic("Error while sending response to computer via USB\n")
    );
}
