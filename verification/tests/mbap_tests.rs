use rodbus::buffer::ReadBuffer;
use rodbus::error::{FrameParseError, RequestError};
use rodbus::frame::Frame;
use rodbus::mbap::{MBAPFormatter, MBAPParser};

//                           |   tx id  |  proto id |  length  | unit |  payload   |
const SIMPLE_FRAME: &[u8] = &[0x00, 0x07, 0x00, 0x00, 0x00, 0x03, 0x2A, 0x03, 0x04];

fn assert_equals_simple_frame(frame: &Frame) {
    assert_eq!(frame.tx_id, 0x0007);
    assert_eq!(frame.unit_id, 0x2A);
    assert_eq!(frame.payload, vec![0x03, 0x04]);
}

fn next_frame(input: &[u8]) -> Result<Option<Frame>, RequestError> {
    let mut buffer = ReadBuffer::new(300);
    buffer.append(input);
    let mut parser = MBAPParser::new();
    parser.parse(&mut buffer)
}

fn test_segmented_parse(split_at: usize) {
    let (f1, f2) = SIMPLE_FRAME.split_at(split_at);
    let mut buffer = ReadBuffer::new(300);
    let mut parser = MBAPParser::new();

    buffer.append(f1);
    assert!(parser.parse(&mut buffer).unwrap().is_none());
    buffer.append(f2);
    let frame = parser.parse(&mut buffer).unwrap().unwrap();

    assert_equals_simple_frame(&frame);
}

fn test_error(input: &[u8], matcher: fn(err: RequestError) -> ()) {
    let err = next_frame(input).err().unwrap();
    matcher(err);
}

#[test]
fn mbap_correctly_formats_frame() {
    let mut formatter = MBAPFormatter::new();
    let msg: &[u8] = &[0x03, 0x04];
    let output = formatter.format(7, 42, msg).unwrap();

    assert_eq!(output, SIMPLE_FRAME)
}

#[test]
fn mbap_can_parse_frame_from_stream() {
    let frame = next_frame(SIMPLE_FRAME).unwrap().unwrap();

    assert_equals_simple_frame(&frame);
}

#[test]
fn mbap_can_parse_maximum_size_frame() {
    // maximum ADU length is 253, so max MBAP length value is 254 which is 0xFE
    let header = &[0x00, 0x07, 0x00, 0x00, 0x00, 0xFE, 0x2A];
    let payload = &[0xCC; 253];

    let mut buffer = ReadBuffer::new(300);
    let mut parser = MBAPParser::new();

    buffer.append(header);
    assert!(parser.parse(&mut buffer).unwrap().is_none());
    buffer.append(payload);
    let frame = parser.parse(&mut buffer).unwrap().unwrap();

    assert_eq!(frame.payload, payload.to_vec());
}

#[test]
fn mbap_can_parse_frame_if_segmented_in_header() {
    test_segmented_parse(4);
}

#[test]
fn mbap_can_parse_frame_if_segmented_in_payload() {
    test_segmented_parse(8);
}

#[test]
fn mbap_errors_on_bad_protocol_id() {
    let frame = &[0x00, 0x07, 0xCA, 0xFE, 0x00, 0x01, 0x2A];
    test_error(frame, |err| {
        assert!(matches!(
            err,
            RequestError::BadFrame(FrameParseError::UnknownProtocolId(0xCAFE))
        ))
    });
}

#[test]
fn mbap_errors_on_length_of_zero() {
    let frame = &[0x00, 0x07, 0x00, 0x00, 0x00, 0x00, 0x2A];
    test_error(frame, |err| {
        assert!(matches!(
            err,
            RequestError::BadFrame(FrameParseError::MbapLengthZero)
        ))
    });
}

#[test]
fn mbap_errors_when_mbap_length_too_big() {
    let frame = &[0x00, 0x07, 0x00, 0x00, 0x00, 0xFF, 0x2A];
    test_error(frame, |err| {
        assert!(matches!(
            err,
            RequestError::BadFrame(FrameParseError::MbapLengthTooBig(0xFF, _))
        ))
    });
}
