use rodbus::channel::{check_reply_frame, format_request, RequestDetails, RequestParam, TxId};
use rodbus::error::{
    AduParseError, InternalError, InvalidRange, InvalidRequest, RequestError,
};
use rodbus::exception::ExceptionCode;
use rodbus::frame::Frame;
use rodbus::mbap::MBAPFormatter;
use rodbus::pdu::{
    coil_value_to_bool, parse_read_bits_response, parse_read_registers_response,
    parse_write_multiple_response, parse_write_single_response, serialize_write_multiple_coils,
    FC_READ_COILS, FC_READ_HOLDING_REGISTERS, FC_WRITE_MULTIPLE_COILS, FC_WRITE_SINGLE_COIL,
};
use rodbus::reconnect::{doubling_reconnect_strategy, ReconnectStrategy};
use rodbus::types::{AddressRange, Indexed, UnitId, WriteMultiple};

#[test]
fn read_coils_golden_exchange() {
    // request: start 7, count 2, unit 0x2A, tx id 7
    let details = RequestDetails::read_coils(AddressRange::new(7, 2)).unwrap();
    let mut formatter = MBAPFormatter::new();
    let frame = format_request(&mut formatter, 0x0007, 0x2A, &details);
    assert_eq!(
        frame,
        vec![0x00, 0x07, 0x00, 0x00, 0x00, 0x06, 0x2A, 0x01, 0x00, 0x07, 0x00, 0x02]
    );

    // server reply: 00 07 00 00 00 04 2A 01 01 03 — payload [01, 01, 03]
    let reply = Frame {
        tx_id: 0x0007,
        unit_id: 0x2A,
        payload: vec![0x01, 0x01, 0x03],
    };
    check_reply_frame(&reply, 0x0007, UnitId::new(0x2A)).unwrap();
    let bits =
        parse_read_bits_response(FC_READ_COILS, AddressRange::new(7, 2), &reply.payload).unwrap();
    assert_eq!(bits, vec![Indexed::new(7, true), Indexed::new(8, true)]);
}

#[test]
fn read_holding_registers_exception_exchange() {
    // server reply: 00 08 00 00 00 03 2A 83 02 — payload [83, 02]
    let range = AddressRange::new(0, 1);
    let err = parse_read_registers_response(FC_READ_HOLDING_REGISTERS, range, &[0x83, 0x02])
        .err()
        .unwrap();
    assert_eq!(err, RequestError::Exception(ExceptionCode::IllegalDataAddress));
    assert_eq!(ExceptionCode::IllegalDataAddress.to_u8(), 2);
}

#[test]
fn write_single_coil_echo_mismatch() {
    // request: index 5, value true (FF 00); server echoes value 00 01
    let response = &[0x05, 0x00, 0x05, 0x00, 0x01];
    let err = parse_write_single_response(FC_WRITE_SINGLE_COIL, 5, 0xFF00, response)
        .err()
        .unwrap();
    assert_eq!(
        err,
        RequestError::BadResponse(AduParseError::ReplyEchoMismatch)
    );
}

#[test]
fn write_single_coil_echo_success() {
    let response = &[0x05, 0x00, 0x05, 0xFF, 0x00];
    let echoed = parse_write_single_response(FC_WRITE_SINGLE_COIL, 5, 0xFF00, response).unwrap();
    assert_eq!(echoed, Indexed::new(5, 0xFF00));
    assert_eq!(coil_value_to_bool(echoed.value), Ok(true));
}

#[test]
fn coil_values_decode_or_reject() {
    assert_eq!(coil_value_to_bool(0xFF00), Ok(true));
    assert_eq!(coil_value_to_bool(0x0000), Ok(false));
    assert_eq!(
        coil_value_to_bool(0x0001),
        Err(RequestError::BadResponse(AduParseError::UnknownCoilState(
            0x0001
        )))
    );
}

#[test]
fn range_validation_accepts_exactly_valid_ranges() {
    assert!(AddressRange::new(0, 1).of_read_bits().is_ok());
    assert!(AddressRange::new(63536, 2000).of_read_bits().is_ok());
    assert_eq!(
        AddressRange::new(0, 0).of_read_bits(),
        Err(InvalidRange::CountOfZero)
    );
    assert_eq!(
        AddressRange::new(65535, 2).of_read_bits(),
        Err(InvalidRange::AddressOverflow(65535, 2))
    );
    assert_eq!(
        AddressRange::new(0, 2001).of_read_bits(),
        Err(InvalidRange::CountTooLargeForType(2001, 2000))
    );
    assert_eq!(
        AddressRange::new(0, 126).of_read_registers(),
        Err(InvalidRange::CountTooLargeForType(126, 125))
    );
}

#[test]
fn reconnect_delays_double_up_to_the_cap_and_reset() {
    let mut strategy = doubling_reconnect_strategy(100, 5000);
    assert_eq!(strategy.next_delay(), 100);
    assert_eq!(strategy.next_delay(), 200);
    assert_eq!(strategy.next_delay(), 400);
    assert_eq!(strategy.next_delay(), 800);
    assert_eq!(strategy.next_delay(), 1600);
    assert_eq!(strategy.next_delay(), 3200);
    assert_eq!(strategy.next_delay(), 5000);
    assert_eq!(strategy.next_delay(), 5000);
    strategy.reset();
    assert_eq!(strategy.next_delay(), 100);
}

#[test]
fn coil_packing_round_trips_through_the_wire_image() {
    let bits = vec![
        true, false, true, true, false, false, true, false, // 0x4D
        true, true, false, // 0x03
    ];
    let request = WriteMultiple::from(16, bits.clone()).unwrap();
    let pdu = serialize_write_multiple_coils(&request);
    assert_eq!(
        pdu,
        vec![0x0F, 0x00, 0x10, 0x00, 0x0B, 0x02, 0x4D, 0x03]
    );

    // feed the packed bytes back as a read response and unpack them
    let mut response = vec![0x01, 0x02];
    response.extend_from_slice(&pdu[6..]);
    let unpacked =
        parse_read_bits_response(FC_READ_COILS, AddressRange::new(16, 11), &response).unwrap();
    let values: Vec<bool> = unpacked.iter().map(|i| i.value).collect();
    assert_eq!(values, bits);
    assert_eq!(unpacked[0].index, 16);
    assert_eq!(unpacked[10].index, 26);
}

#[test]
fn write_multiple_response_echoes_range() {
    let range = AddressRange::new(16, 11);
    let ok = parse_write_multiple_response(
        FC_WRITE_MULTIPLE_COILS,
        range,
        &[0x0F, 0x00, 0x10, 0x00, 0x0B],
    )
    .unwrap();
    assert_eq!(ok, range);
    let err = parse_write_multiple_response(
        FC_WRITE_MULTIPLE_COILS,
        range,
        &[0x0F, 0x00, 0x10, 0x00, 0x0C],
    )
    .err()
    .unwrap();
    assert_eq!(err, RequestError::BadResponse(AduParseError::ReplyEchoMismatch));
}

#[test]
fn response_shape_errors_are_reported() {
    let range = AddressRange::new(0, 2);
    // unknown function code
    assert_eq!(
        parse_read_bits_response(FC_READ_COILS, range, &[0x07, 0x01, 0x00]).err(),
        Some(RequestError::BadResponse(
            AduParseError::UnknownResponseFunction(0x07, 0x01, 0x81)
        ))
    );
    // empty response
    assert_eq!(
        parse_read_bits_response(FC_READ_COILS, range, &[]).err(),
        Some(RequestError::BadResponse(AduParseError::InsufficientBytes))
    );
    // declared byte count does not match the bytes present
    assert_eq!(
        parse_read_bits_response(FC_READ_COILS, range, &[0x01, 0x02, 0x00]).err(),
        Some(RequestError::BadResponse(
            AduParseError::InsufficientBytesForByteCount(2, 1)
        ))
    );
    // matching but oversized byte count leaves trailing bytes
    assert_eq!(
        parse_read_bits_response(FC_READ_COILS, range, &[0x01, 0x02, 0x03, 0x00]).err(),
        Some(RequestError::BadResponse(AduParseError::TrailingBytes(1)))
    );
    // register count must match twice the requested count
    assert_eq!(
        parse_read_registers_response(FC_READ_HOLDING_REGISTERS, range, &[0x03, 0x02, 0x00, 0x01])
            .err(),
        Some(RequestError::BadResponse(AduParseError::InsufficientBytes))
    );
}

#[test]
fn read_registers_success_pairs_values_with_addresses() {
    let range = AddressRange::new(10, 2);
    let values = parse_read_registers_response(
        FC_READ_HOLDING_REGISTERS,
        range,
        &[0x03, 0x04, 0x12, 0x34, 0xAB, 0xCD],
    )
    .unwrap();
    assert_eq!(
        values,
        vec![Indexed::new(10, 0x1234), Indexed::new(11, 0xABCD)]
    );
}

#[test]
fn write_multiple_validation() {
    assert_eq!(
        WriteMultiple::<bool>::from(0, vec![]).err(),
        Some(InvalidRequest::BadRange(InvalidRange::CountOfZero))
    );
    assert_eq!(
        WriteMultiple::from(65535, vec![true, false]).err(),
        Some(InvalidRequest::BadRange(InvalidRange::AddressOverflow(
            65535, 2
        )))
    );
    let too_many = WriteMultiple::from(0, vec![0u16; 124]).unwrap();
    assert_eq!(
        RequestDetails::write_multiple_registers(too_many).err(),
        Some(RequestError::BadRequest(InvalidRequest::CountTooBigForType(
            124, 123
        )))
    );
    let too_many_coils = WriteMultiple::from(0, vec![false; 1969]).unwrap();
    assert_eq!(
        RequestDetails::write_multiple_coils(too_many_coils).err(),
        Some(RequestError::BadRequest(InvalidRequest::CountTooBigForType(
            1969, 1968
        )))
    );
}

#[test]
fn transaction_ids_wrap_modulo_two_to_the_sixteen() {
    let mut tx = TxId::new();
    assert_eq!(tx.next(), 0);
    assert_eq!(tx.next(), 1);
    for _ in 0..65533 {
        tx.next();
    }
    assert_eq!(tx.next(), 65535);
    assert_eq!(tx.next(), 0);
}

#[test]
fn reply_frame_must_match_transaction_and_unit() {
    let frame = Frame {
        tx_id: 9,
        unit_id: 0x2A,
        payload: vec![],
    };
    assert!(check_reply_frame(&frame, 9, UnitId::new(0x2A)).is_ok());
    assert_eq!(
        check_reply_frame(&frame, 8, UnitId::new(0x2A)).err(),
        Some(RequestError::BadResponse(AduParseError::ReplyEchoMismatch))
    );
    assert_eq!(
        check_reply_frame(&frame, 9, UnitId::new(0x2B)).err(),
        Some(RequestError::BadResponse(AduParseError::ReplyEchoMismatch))
    );
}

#[test]
fn formatter_rejects_oversized_payloads() {
    let mut formatter = MBAPFormatter::new();
    let payload = vec![0u8; 254];
    assert_eq!(
        formatter.format(1, 1, &payload).err(),
        Some(RequestError::Internal(InternalError::AduTooBig(254)))
    );
    // 253 bytes still format
    let payload = vec![0u8; 253];
    let frame = formatter.format(1, 1, &payload).unwrap();
    assert_eq!(frame.len(), 260);
    assert_eq!(&frame[..7], &[0x00, 0x01, 0x00, 0x00, 0x00, 0xFE, 0x01]);
}

#[test]
fn request_param_carries_unit_and_timeout() {
    let param = RequestParam::new(UnitId::new(0x2A), 1000);
    assert_eq!(param.id, UnitId::new(0x2A));
    assert_eq!(param.response_timeout_ms, 1000);
}

#[test]
fn exception_codes_round_trip_through_their_bytes() {
    let cases = [
        (0x01, ExceptionCode::IllegalFunction),
        (0x02, ExceptionCode::IllegalDataAddress),
        (0x03, ExceptionCode::IllegalDataValue),
        (0x04, ExceptionCode::ServerDeviceFailure),
        (0x05, ExceptionCode::Acknowledge),
        (0x06, ExceptionCode::ServerDeviceBusy),
        (0x08, ExceptionCode::MemoryParityError),
        (0x0A, ExceptionCode::GatewayPathUnavailable),
        (0x0B, ExceptionCode::GatewayTargetDeviceFailedToRespond),
        (0x2F, ExceptionCode::Unknown(0x2F)),
    ];
    for (byte, code) in cases {
        assert_eq!(ExceptionCode::from_u8(byte), code);
        assert_eq!(code.to_u8(), byte);
    }
}

#[test]
fn serialized_requests_match_the_wire_format() {
    let details = RequestDetails::write_single_coil(Indexed::new(1, true));
    assert_eq!(details.serialize(), vec![0x05, 0x00, 0x01, 0xFF, 0x00]);
    let details = RequestDetails::write_single_register(Indexed::new(0x0102, 0x0304));
    assert_eq!(details.serialize(), vec![0x06, 0x01, 0x02, 0x03, 0x04]);
    let details =
        RequestDetails::read_holding_registers(AddressRange::new(0x0102, 0x0003)).unwrap();
    assert_eq!(details.serialize(), vec![0x03, 0x01, 0x02, 0x00, 0x03]);
    let wm = WriteMultiple::from(3, vec![0x0A0Bu16, 0x0C0D]).unwrap();
    let details = RequestDetails::write_multiple_registers(wm).unwrap();
    assert_eq!(
        details.serialize(),
        vec![0x10, 0x00, 0x03, 0x00, 0x02, 0x04, 0x0A, 0x0B, 0x0C, 0x0D]
    );
}
