use sem::usb_tmc::error::{Error, ProtocolError};
use sem::usb_tmc::protocol::{
    accepts_ren_control, check_status, decode_dev_dep_msg_in, encode_dev_dep_msg_out,
    encode_request_dev_dep_msg_in, padding_len, BTagSequence, GET_CAPABILITIES,
    GET_CAPABILITIES_LEN, REN_CONTROL,
};
use sem::usb_tmc::transfer::{
    check_capabilities, check_ren_control, encode_message, find_usbtmc_interface,
    get_capabilities_request, message_text, ren_control_request, select_device, write_chunk_len,
    ControlRequest, Direction, EndpointDescriptor, InterfaceDescriptor, MessageAssembler,
    ReadProgress, ResponseReader, TransferType, WRITE_CHUNK_LEN,
};

#[test]
fn padding_rounds_up_to_a_multiple_of_four() {
    assert_eq!(padding_len(0), 0);
    assert_eq!(padding_len(1), 3);
    assert_eq!(padding_len(2), 2);
    assert_eq!(padding_len(3), 1);
    assert_eq!(padding_len(4), 0);
    assert_eq!(padding_len(6), 2);
}

#[test]
fn dev_dep_msg_out_header_layout() {
    let header = encode_dev_dep_msg_out(5, 0x0102_0304, true);
    assert_eq!(header, [1, 5, 250, 0, 4, 3, 2, 1, 1, 0, 0, 0]);
    let header = encode_dev_dep_msg_out(1, 6, false);
    assert_eq!(header, [1, 1, 254, 0, 6, 0, 0, 0, 0, 0, 0, 0]);
}

#[test]
fn request_dev_dep_msg_in_header_layout() {
    let header = encode_request_dev_dep_msg_in(7, 20 * 1024);
    assert_eq!(header, [2, 7, 248, 0, 0, 0x50, 0, 0, 0, 0, 0, 0]);
}

#[test]
fn decode_accepts_a_matching_header() {
    let header = [2, 9, 246, 0, 6, 0, 0, 0, 1, 0, 0, 0];
    let decoded = decode_dev_dep_msg_in(&header, 9).unwrap();
    assert_eq!(decoded.transfer_size, 6);
    assert!(decoded.eom);
    let header = [2, 9, 246, 0, 0, 1, 0, 0, 0, 0, 0, 0];
    let decoded = decode_dev_dep_msg_in(&header, 9).unwrap();
    assert_eq!(decoded.transfer_size, 256);
    assert!(!decoded.eom);
}

#[test]
fn decode_refuses_each_mismatch() {
    let wrong_id = [1, 9, 246, 0, 6, 0, 0, 0, 1, 0, 0, 0];
    assert_eq!(
        decode_dev_dep_msg_in(&wrong_id, 9).unwrap_err(),
        Error::Protocol(ProtocolError::UnexpectedMessageId { got: 1 })
    );
    let wrong_tag = [2, 8, 246, 0, 6, 0, 0, 0, 1, 0, 0, 0];
    assert_eq!(
        decode_dev_dep_msg_in(&wrong_tag, 9).unwrap_err(),
        Error::Protocol(ProtocolError::BTagMismatch { expected: 9, got: 8 })
    );
    let wrong_inverse = [2, 9, 245, 0, 6, 0, 0, 0, 1, 0, 0, 0];
    assert_eq!(
        decode_dev_dep_msg_in(&wrong_inverse, 9).unwrap_err(),
        Error::Protocol(ProtocolError::BTagInverseMismatch { expected: 246, got: 245 })
    );
}

#[test]
fn b_tags_cycle_through_1_to_255_skipping_zero() {
    let mut tags = BTagSequence::default();
    assert_eq!(tags.next(), 1);
    assert_eq!(tags.next(), 2);
    let mut tags = BTagSequence(254);
    assert_eq!(tags.next(), 255);
    assert_eq!(tags.next(), 1);
    let mut tags = BTagSequence(0);
    for _ in 0..600 {
        let tag = tags.next();
        assert_ne!(tag, 0);
    }
}

#[test]
fn message_is_header_data_and_padding() {
    let message = encode_message(3, b"*IDN?\n");
    assert_eq!(message.len(), 12 + 6 + 2);
    assert_eq!(&message[..12], &[1, 3, 252, 0, 6, 0, 0, 0, 1, 0, 0, 0]);
    assert_eq!(&message[12..18], b"*IDN?\n");
    assert_eq!(&message[18..], &[0, 0]);
}

#[test]
fn assembler_concatenates_payloads_until_eom() {
    let mut assembler = MessageAssembler::new();
    assert!(!assembler.push(b"RIGOL,", false));
    assert!(assembler.push(b"DP932E\n", true));
    assert_eq!(assembler.into_message(), b"RIGOL,DP932E\n".to_vec());
}

#[test]
fn reader_completes_across_reads() {
    let mut reader = ResponseReader::new(4);
    let mut transfer = vec![2, 4, 251, 0, 5, 0, 0, 0, 1, 0, 0, 0];
    transfer.extend_from_slice(b"hello");
    assert_eq!(reader.receive(&transfer[..7], 7).unwrap(), ReadProgress::Incomplete);
    assert_eq!(reader.receive(&transfer[7..14], 7).unwrap(), ReadProgress::Incomplete);
    assert_eq!(
        reader.receive(&transfer[14..], 64).unwrap(),
        ReadProgress::Complete { payload: b"hello".to_vec(), eom: true }
    );
}

#[test]
fn reader_ignores_missing_padding_and_stops_at_the_payload() {
    let mut reader = ResponseReader::new(1);
    let mut transfer = vec![2, 1, 254, 0, 2, 0, 0, 0, 0, 0, 0, 0];
    transfer.extend_from_slice(b"ok");
    assert_eq!(
        reader.receive(&transfer, 16 * 1024).unwrap(),
        ReadProgress::Complete { payload: b"ok".to_vec(), eom: false }
    );
}

#[test]
fn reader_refuses_an_empty_read_and_a_short_transfer() {
    let mut reader = ResponseReader::new(1);
    assert_eq!(
        reader.receive(&[], 64).unwrap_err(),
        Error::Protocol(ProtocolError::BulkInEnded)
    );
    let mut reader = ResponseReader::new(1);
    let header = [2, 1, 254, 0, 10, 0, 0, 0, 1, 0, 0, 0];
    assert_eq!(reader.receive(&header, 64).unwrap(), ReadProgress::Incomplete);
    assert_eq!(
        reader.receive(b"abc", 64).unwrap_err(),
        Error::Protocol(ProtocolError::TransferEnded { received: 15, expected: 22 })
    );
}

#[test]
fn reader_refuses_a_mismatched_header() {
    let mut reader = ResponseReader::new(3);
    let header = [2, 4, 251, 0, 0, 0, 0, 0, 1, 0, 0, 0];
    assert_eq!(
        reader.receive(&header, 64).unwrap_err(),
        Error::Protocol(ProtocolError::BTagMismatch { expected: 3, got: 4 })
    );
}

#[test]
fn writes_are_chunked() {
    assert_eq!(write_chunk_len(10), 10);
    assert_eq!(write_chunk_len(WRITE_CHUNK_LEN + 1), WRITE_CHUNK_LEN);
}

#[test]
fn exactly_one_matching_device_is_selected() {
    assert_eq!(select_device(vec!["a"], 1, 2).unwrap(), "a");
    assert_eq!(
        select_device(Vec::<&str>::new(), 0x1ab1, 0xa4a8).unwrap_err(),
        Error::DeviceNotFound { vendor_id: 0x1ab1, product_id: 0xa4a8 }
    );
    assert_eq!(
        select_device(vec!["a", "b"], 1, 2).unwrap_err(),
        Error::MultipleDevicesFound { vendor_id: 1, product_id: 2, count: 2 }
    );
}

fn endpoint(address: u8, direction: Direction, transfer_type: TransferType) -> EndpointDescriptor {
    EndpointDescriptor { address, direction, transfer_type }
}

#[test]
fn the_usbtmc_interface_and_its_bulk_endpoints_are_found() {
    let other = InterfaceDescriptor {
        class_code: 0x03,
        endpoints: vec![endpoint(0x81, Direction::In, TransferType::Interrupt)],
        interface_number: 0,
        sub_class_code: 0,
    };
    let usbtmc = InterfaceDescriptor {
        class_code: 0xfe,
        endpoints: vec![
            endpoint(0x83, Direction::In, TransferType::Interrupt),
            endpoint(0x82, Direction::In, TransferType::Bulk),
            endpoint(0x02, Direction::Out, TransferType::Bulk),
        ],
        interface_number: 1,
        sub_class_code: 0x03,
    };
    assert_eq!(find_usbtmc_interface(&vec![other.clone(), usbtmc]).unwrap(), (1, 0x82, 0x02));
    assert_eq!(find_usbtmc_interface(&vec![other]).unwrap_err(), Error::UsbTmcInterfaceNotFound);
}

#[test]
fn control_requests_read_from_the_interface() {
    assert_eq!(
        get_capabilities_request(2),
        ControlRequest { request_type: 0xa1, request: GET_CAPABILITIES, value: 0, index: 2 }
    );
    assert_eq!(
        ren_control_request(0),
        ControlRequest { request_type: 0xa1, request: REN_CONTROL, value: 1, index: 0 }
    );
}

#[test]
fn capabilities_are_checked() {
    let mut capabilities = [0u8; GET_CAPABILITIES_LEN];
    capabilities[0] = 1;
    assert_eq!(check_capabilities(GET_CAPABILITIES_LEN, &capabilities).unwrap(), false);
    capabilities[14] = 0b10;
    assert!(accepts_ren_control(&capabilities));
    assert_eq!(check_capabilities(GET_CAPABILITIES_LEN, &capabilities).unwrap(), true);
    assert_eq!(
        check_capabilities(3, &capabilities).unwrap_err(),
        Error::Protocol(ProtocolError::ControlResponseLength {
            request: GET_CAPABILITIES,
            got: 3,
            expected: GET_CAPABILITIES_LEN,
        })
    );
    capabilities[0] = 0x80;
    assert_eq!(
        check_capabilities(GET_CAPABILITIES_LEN, &capabilities).unwrap_err(),
        Error::ControlRequestFailed { request: GET_CAPABILITIES, status: 0x80 }
    );
}

#[test]
fn ren_control_answer_is_checked() {
    assert!(check_ren_control(1, 1).is_ok());
    assert!(check_status(REN_CONTROL, 1).is_ok());
    assert_eq!(
        check_ren_control(1, 0x80).unwrap_err(),
        Error::ControlRequestFailed { request: REN_CONTROL, status: 0x80 }
    );
    assert_eq!(
        check_ren_control(0, 1).unwrap_err(),
        Error::Protocol(ProtocolError::ControlResponseLength { request: REN_CONTROL, got: 0, expected: 1 })
    );
}

#[test]
fn message_text_decodes_utf8() {
    assert_eq!(message_text(b"1.234\n".to_vec()).unwrap(), "1.234\n");
    assert_eq!(message_text(vec![0xff, 0xfe]).unwrap_err(), Error::Utf8);
}
