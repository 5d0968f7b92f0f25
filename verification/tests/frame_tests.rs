use rodbus::buffer::ReadBuffer;
use rodbus::error::{FrameParseError, RequestError};
use rodbus::frame::Frame;
use rodbus::mbap::{MBAPFormatter, MBAPParser};

//                           |   tx id  |  proto id |  length  | unit |  payload  |
const SIMPLE_FRAME: &[u8] = &[0x00, 0x07, 0x00, 0x00, 0x00, 0x03, 0x2A, 0x03, 0x04];

fn assert_equals_simple_frame(frame: &Frame) {
    assert_eq!(frame.tx_id, 0x0007);
    assert_eq!(frame.unit_id, 0x2A);
    assert_eq!(frame.payload, vec![0x03, 0x04]);
}

fn parse_all(input: &[u8]) -> Result<Option<Frame>, RequestError> {
    let mut buffer = ReadBuffer::new(300);
    buffer.append(input);
    let mut parser = MBAPParser::new();
    parser.parse(&mut buffer)
}

fn test_segmented_parse(split_at: usize) {
    let (f1, f2) = SIMPLE_FRAME.split_at(split_at);
    let mut buffer = ReadBuffer::new(300);
    let mut parser = MBAPParser::new();

    buffer.append(f1);
    assert!(parser.parse(&mut buffer).unwrap().is_none());
    buffer.append(f2);
    let frame = parser.parse(&mut buffer).unwrap().unwrap();

    assert_equals_simple_frame(&frame);
}

fn test_error(input: &[u8]) -> RequestError {
    parse_all(input).err().unwrap()
}

#[test]
fn frame_correctly_formats_frame() {
    let mut formatter = MBAPFormatter::new();
    let msg: &[u8] = &[0x03, 0x04];
    let output = formatter.format(7, 42, msg).unwrap();

    assert_eq!(output, SIMPLE_FRAME)
}

#[test]
fn frame_can_parse_frame_from_stream() {
    let frame = parse_all(SIMPLE_FRAME).unwrap().unwrap();

    assert_equals_simple_frame(&frame);
}

#[test]
fn frame_can_parse_maximum_size_frame() {
    // maximum ADU length is 253, so the max MBAP length value is 254 == 0xFE
    let header = &[0x00, 0x07, 0x00, 0x00, 0x00, 0xFE, 0x2A];
    let payload = &[0xCC; 253];

    let mut buffer = ReadBuffer::new(300);
    let mut parser = MBAPParser::new();

    buffer.append(header);
    assert!(parser.parse(&mut buffer).unwrap().is_none());
    buffer.append(payload);
    let frame = parser.parse(&mut buffer).unwrap().unwrap();

    assert_eq!(frame.payload, payload.to_vec());
}

#[test]
fn frame_can_parse_frame_if_segmented_in_header() {
    test_segmented_parse(4);
}

#[test]
fn frame_can_parse_frame_if_segmented_in_payload() {
    test_segmented_parse(8);
}

#[test]
fn frame_parses_when_fed_byte_by_byte() {
    let mut buffer = ReadBuffer::new(300);
    let mut parser = MBAPParser::new();
    for (i, byte) in SIMPLE_FRAME.iter().enumerate() {
        buffer.append(&[*byte]);
        let step = parser.parse(&mut buffer).unwrap();
        if i + 1 < SIMPLE_FRAME.len() {
            assert!(step.is_none());
        } else {
            assert_equals_simple_frame(&step.unwrap());
        }
    }
}

#[test]
fn frame_format_then_parse_returns_the_same_triple() {
    let payload: Vec<u8> = (0..253u32).map(|i| (i % 251) as u8).collect();
    let mut formatter = MBAPFormatter::new();
    let image = formatter.format(0xBEEF, 0x11, &payload).unwrap();

    let mut buffer = ReadBuffer::new(300);
    buffer.append(&image);
    let mut parser = MBAPParser::new();
    let frame = parser.parse(&mut buffer).unwrap().unwrap();
    assert_eq!(frame.tx_id, 0xBEEF);
    assert_eq!(frame.unit_id, 0x11);
    assert_eq!(frame.payload, payload);
    assert_eq!(buffer.len(), 0);
}

#[test]
fn frame_errors_on_bad_protocol_id() {
    let frame = &[0x00, 0x07, 0xCA, 0xFE, 0x00, 0x01, 0x2A];
    assert_eq!(
        test_error(frame),
        RequestError::BadFrame(FrameParseError::UnknownProtocolId(0xCAFE)),
    );
}

#[test]
fn frame_errors_on_length_of_zero() {
    let frame = &[0x00, 0x07, 0x00, 0x00, 0x00, 0x00, 0x2A];
    assert_eq!(
        test_error(frame),
        RequestError::BadFrame(FrameParseError::MbapLengthZero)
    );
}

#[test]
fn frame_errors_when_mbap_length_too_big() {
    let frame = &[0x00, 0x07, 0x00, 0x00, 0x00, 0xFF, 0x2A];
    assert_eq!(
        test_error(frame),
        RequestError::BadFrame(FrameParseError::MbapLengthTooBig(0xFF, 254))
    );
}
