//! The MBAP framer: a stateful parser that consumes bytes from the read
//! buffer and yields complete frames, and a formatter that produces the
//! contiguous wire image of a header plus payload.
//!
//! Header layout (7 bytes, big-endian): transaction id, protocol id (always
//! zero), length field covering unit id plus PDU, then the unit id byte.

use vstd::prelude::*;
use crate::buffer::ReadBuffer;
use crate::cursor::WriteCursor;
use crate::error::{FrameParseError, InternalError, RequestError};
use crate::frame::{Frame, MAX_ADU_LENGTH, MAX_MBAP_FRAME_LENGTH, MBAP_HEADER_LENGTH,
    MBAP_MAX_LENGTH_FIELD};

verus! {

/// The fields of a parsed MBAP header; the length field is already reduced
/// to the length of the ADU that follows the header.
#[derive(Clone, Copy, Debug, PartialEq, Eq, Structural)]
pub struct MBAPHeader {
    /// The transaction id of the frame.
    pub tx_id: u16,
    /// How many payload bytes follow the header: the length field minus the
    /// unit id byte it counts.
    pub adu_length: usize,
    /// The unit id of the frame.
    pub unit_id: u8,
}

/// Where the parser stands: waiting for a header, or holding one and waiting
/// for its payload.
#[derive(Clone, Copy, Debug, PartialEq, Eq, Structural)]
pub enum ParseState {
    /// No header has been read yet.
    Begin,
    /// A header was read; its payload has not fully arrived.
    Header(MBAPHeader),
}

/// What one parser step produces.
pub enum SpecParseStep {
    /// More bytes are needed before anything can be produced.
    Incomplete,
    /// A complete frame: transaction id, unit id, payload.
    Frame(u16, u8, Seq<u8>),
    /// The header failed validation.
    Error(FrameParseError),
}

/// The 16-bit value written big-endian as the two given bytes.
pub open spec fn spec_be16(hi: u8, lo: u8) -> u16 {
    ((hi as int) * 256 + (lo as int)) as u16
}

/// What parsing the first seven bytes as an MBAP header gives: the header, or
/// the validation error. Meaningful only when at least seven bytes are present.
pub open spec fn spec_parse_header(b: Seq<u8>) -> Result<MBAPHeader, FrameParseError> {
    let tx_id = spec_be16(b[0], b[1]);
    let protocol_id = spec_be16(b[2], b[3]);
    let length = spec_be16(b[4], b[5]);
    let unit_id = b[6];
    if protocol_id != 0 {
        Err(FrameParseError::UnknownProtocolId(protocol_id))
    } else if length > MBAP_MAX_LENGTH_FIELD as u16 {
        Err(FrameParseError::MbapLengthTooBig(length as usize, MBAP_MAX_LENGTH_FIELD))
    } else if length == 0 {
        Err(FrameParseError::MbapLengthZero)
    } else {
        Ok(MBAPHeader { tx_id, adu_length: (length - 1) as usize, unit_id })
    }
}

/// One call of the parser on unread bytes `b` in state `s`: the state after
/// the call, how many bytes the call consumes, and what it produces.
pub open spec fn spec_parse(s: ParseState, b: Seq<u8>) -> (ParseState, int, SpecParseStep) {
    match s {
        ParseState::Header(h) => {
            if b.len() < h.adu_length {
                (s, 0int, SpecParseStep::Incomplete)
            } else {
                (
                    ParseState::Begin,
                    h.adu_length as int,
                    SpecParseStep::Frame(h.tx_id, h.unit_id, b.take(h.adu_length as int)),
                )
            }
        },
        ParseState::Begin => {
            if b.len() < MBAP_HEADER_LENGTH {
                (s, 0int, SpecParseStep::Incomplete)
            } else {
                match spec_parse_header(b) {
                    Err(e) => (ParseState::Begin, 7int, SpecParseStep::Error(e)),
                    Ok(h) => {
                        if b.len() - 7 < h.adu_length {
                            (ParseState::Header(h), 7int, SpecParseStep::Incomplete)
                        } else {
                            (
                                ParseState::Begin,
                                7 + h.adu_length as int,
                                SpecParseStep::Frame(
                                    h.tx_id,
                                    h.unit_id,
                                    b.subrange(7, 7 + h.adu_length as int),
                                ),
                            )
                        }
                    },
                }
            }
        },
    }
}

/// The wire image of a frame: the seven header bytes followed by the payload,
/// the length field counting the payload plus the unit id byte.
pub open spec fn spec_format(tx_id: u16, unit_id: u8, payload: Seq<u8>) -> Seq<u8> {
    seq![
        (tx_id / 256) as u8,
        (tx_id % 256) as u8,
        0u8,
        0u8,
        (((payload.len() + 1) as int / 256) as u8),
        (((payload.len() + 1) as int % 256) as u8),
        unit_id,
    ] + payload
}

/// Formatting a frame and parsing it back returns exactly the transaction id,
/// unit id and payload that went in, for every payload a frame can carry, and
/// consumes the whole image.
pub proof fn lemma_format_parse_round_trip(tx_id: u16, unit_id: u8, payload: Seq<u8>)
    requires
        payload.len() <= MAX_ADU_LENGTH,
    ensures
        ({
            let (s2, n, out) = spec_parse(ParseState::Begin, spec_format(tx_id, unit_id, payload));
            &&& s2 == ParseState::Begin
            &&& n == spec_format(tx_id, unit_id, payload).len()
            &&& out matches SpecParseStep::Frame(t, u, p) && t == tx_id && u == unit_id && p
                == payload
        }),
{
    let f = spec_format(tx_id, unit_id, payload);
    assert(f.len() == 7 + payload.len());
    assert(spec_be16(f[0], f[1]) == tx_id);
    assert(spec_be16(f[2], f[3]) == 0);
    let lf = payload.len() + 1;
    assert(spec_be16(f[4], f[5]) == lf);
    assert(spec_parse_header(f) == Ok::<MBAPHeader, FrameParseError>(
        MBAPHeader { tx_id, adu_length: payload.len() as usize, unit_id },
    ));
    assert(f.subrange(7, 7 + payload.len() as int) =~= payload);
}

/// The parser yields `None` on any strict prefix of a valid frame, and yields
/// the frame once the remainder arrives, however the bytes were split: the
/// first call consumes at most the header, and the second call consumes what
/// is left and produces the original triple.
pub proof fn lemma_parse_segmented(tx_id: u16, unit_id: u8, payload: Seq<u8>, i: int)
    requires
        payload.len() <= MAX_ADU_LENGTH,
        0 <= i < spec_format(tx_id, unit_id, payload).len(),
    ensures
        ({
            let f = spec_format(tx_id, unit_id, payload);
            let (s1, n1, out1) = spec_parse(ParseState::Begin, f.take(i));
            let rest = f.take(i).skip(n1) + f.skip(i);
            let (s2, n2, out2) = spec_parse(s1, rest);
            &&& out1 is Incomplete
            &&& 0 <= n1 <= i
            &&& s2 == ParseState::Begin
            &&& n2 == rest.len()
            &&& out2 matches SpecParseStep::Frame(t, u, p) && t == tx_id && u == unit_id && p
                == payload
        }),
{
    let f = spec_format(tx_id, unit_id, payload);
    let (s1, n1, out1) = spec_parse(ParseState::Begin, f.take(i));
    if i < 7 {
        assert(f.take(i).len() < 7);
        let rest = f.take(i).skip(n1) + f.skip(i);
        assert(rest =~= f);
        lemma_format_parse_round_trip(tx_id, unit_id, payload);
    } else {
        let p = f.take(i);
        assert(p[0] == f[0] && p[1] == f[1] && p[2] == f[2] && p[3] == f[3] && p[4] == f[4] && p[5]
            == f[5] && p[6] == f[6]);
        assert(spec_be16(f[0], f[1]) == tx_id);
        assert(spec_be16(f[2], f[3]) == 0);
        let lf = payload.len() + 1;
        assert(spec_be16(f[4], f[5]) == lf);
        let h = MBAPHeader { tx_id, adu_length: payload.len() as usize, unit_id };
        assert(spec_parse_header(p) == Ok::<MBAPHeader, FrameParseError>(h));
        assert(p.len() - 7 < h.adu_length);
        assert(s1 == ParseState::Header(h) && n1 == 7);
        let rest = p.skip(7) + f.skip(i);
        assert(rest =~= payload);
        assert(rest.len() >= h.adu_length);
        assert(rest.take(h.adu_length as int) =~= payload);
    }
}

/// The concatenation of a list of byte chunks, in order.
pub open spec fn spec_concat(chunks: Seq<Seq<u8>>) -> Seq<u8>
    decreases chunks.len(),
{
    if chunks.len() == 0 {
        Seq::empty()
    } else {
        chunks[0] + spec_concat(chunks.skip(1))
    }
}

/// The read loop as the channel task runs it: parse the buffered bytes, and
/// whenever more are needed, append the next chunk the transport delivers and
/// parse again.
pub open spec fn spec_feed(s: ParseState, b: Seq<u8>, chunks: Seq<Seq<u8>>) -> SpecParseStep
    decreases chunks.len(),
{
    let (s2, n, out) = spec_parse(s, b);
    match out {
        SpecParseStep::Incomplete => {
            if chunks.len() == 0 {
                SpecParseStep::Incomplete
            } else {
                spec_feed(s2, b.skip(n) + chunks[0], chunks.skip(1))
            }
        },
        _ => out,
    }
}

/// The invariant step behind `lemma_parse_any_segmentation`: from a state and
/// buffer that stand for a proper prefix of the frame, feeding the remaining
/// chunks yields the frame.
proof fn lemma_feed_reaches_frame(
    tx_id: u16,
    unit_id: u8,
    payload: Seq<u8>,
    s: ParseState,
    b: Seq<u8>,
    chunks: Seq<Seq<u8>>,
)
    requires
        payload.len() <= MAX_ADU_LENGTH,
        ({
            let f = spec_format(tx_id, unit_id, payload);
            let h = MBAPHeader {
                tx_id,
                adu_length: payload.len() as usize,
                unit_id,
            };
            ||| (s == ParseState::Begin && b + spec_concat(chunks) == f)
            ||| (s == ParseState::Header(h) && b + spec_concat(chunks) == payload)
        }),
    ensures
        spec_feed(s, b, chunks) matches SpecParseStep::Frame(t, u, p) && t == tx_id && u == unit_id
            && p == payload,
    decreases chunks.len(),
{
    let f = spec_format(tx_id, unit_id, payload);
    let h = MBAPHeader { tx_id, adu_length: payload.len() as usize, unit_id };
    let (s2, n, out) = spec_parse(s, b);
    if s == ParseState::Begin {
        assert(b + spec_concat(chunks) == f);
        assert(b.len() <= f.len()) by {
            assert(f.len() == b.len() + spec_concat(chunks).len());
        }
        assert(forall|j: int| 0 <= j < b.len() ==> b[j] == f[j]) by {
            assert(forall|j: int| 0 <= j < b.len() ==> (b + spec_concat(chunks))[j] == b[j]);
        }
        if b.len() < 7 {
            assert(out is Incomplete && n == 0 && s2 == ParseState::Begin);
            assert(chunks.len() > 0) by {
                if chunks.len() == 0 {
                    assert(b == f);
                }
            }
            assert(b.skip(0) + chunks[0] + spec_concat(chunks.skip(1)) =~= b + spec_concat(
                chunks,
            ));
            lemma_feed_reaches_frame(
                tx_id,
                unit_id,
                payload,
                s2,
                b.skip(0) + chunks[0],
                chunks.skip(1),
            );
        } else {
            assert(spec_be16(f[0], f[1]) == tx_id);
            assert(spec_be16(f[2], f[3]) == 0);
            assert(spec_be16(f[4], f[5]) == payload.len() + 1);
            assert(spec_parse_header(b) == Ok::<MBAPHeader, FrameParseError>(h));
            if b.len() - 7 < h.adu_length {
                assert(out is Incomplete && n == 7 && s2 == ParseState::Header(h));
                assert(chunks.len() > 0) by {
                    if chunks.len() == 0 {
                        assert(b == f);
                    }
                }
                assert(b.skip(7) + spec_concat(chunks) =~= payload) by {
                    assert(f.skip(7) =~= payload);
                    assert((b + spec_concat(chunks)).skip(7) =~= b.skip(7) + spec_concat(chunks));
                }
                assert(b.skip(7) + chunks[0] + spec_concat(chunks.skip(1)) =~= b.skip(7)
                    + spec_concat(chunks));
                lemma_feed_reaches_frame(
                    tx_id,
                    unit_id,
                    payload,
                    s2,
                    b.skip(7) + chunks[0],
                    chunks.skip(1),
                );
            } else {
                assert(out == SpecParseStep::Frame(tx_id, unit_id, b.subrange(
                    7,
                    7 + h.adu_length as int,
                )));
                assert(b.subrange(7, 7 + payload.len() as int) =~= payload);
            }
        }
    } else {
        assert(s == ParseState::Header(h) && b + spec_concat(chunks) == payload);
        assert(b.len() <= payload.len()) by {
            assert(payload.len() == b.len() + spec_concat(chunks).len());
        }
        if b.len() < h.adu_length {
            assert(out is Incomplete && n == 0 && s2 == s);
            assert(chunks.len() > 0) by {
                if chunks.len() == 0 {
                    assert(b == payload);
                }
            }
            assert(b.skip(0) + chunks[0] + spec_concat(chunks.skip(1)) =~= b + spec_concat(
                chunks,
            ));
            lemma_feed_reaches_frame(
                tx_id,
                unit_id,
                payload,
                s2,
                b.skip(0) + chunks[0],
                chunks.skip(1),
            );
        } else {
            assert(b.len() == payload.len());
            assert(spec_concat(chunks).len() == 0);
            assert(b =~= payload) by {
                assert(forall|j: int|
                    0 <= j < b.len() ==> b[j] == (b + spec_concat(chunks))[j]);
            }
            assert(b.take(h.adu_length as int) =~= payload);
        }
    }
}

/// However the transport splits a frame's bytes into chunks, the read loop
/// yields exactly the frame that was formatted: no split across header or
/// payload changes what is parsed.
pub proof fn lemma_parse_any_segmentation(
    tx_id: u16,
    unit_id: u8,
    payload: Seq<u8>,
    chunks: Seq<Seq<u8>>,
)
    requires
        payload.len() <= MAX_ADU_LENGTH,
        spec_concat(chunks) == spec_format(tx_id, unit_id, payload),
    ensures
        spec_feed(ParseState::Begin, Seq::empty(), chunks) matches SpecParseStep::Frame(t, u, p)
            && t == tx_id && u == unit_id && p == payload,
{
    assert(Seq::<u8>::empty() + spec_concat(chunks) =~= spec_concat(chunks));
    lemma_feed_reaches_frame(tx_id, unit_id, payload, ParseState::Begin, Seq::empty(), chunks);
}

/// The stateful MBAP parser: it never yields a partial frame, only `None`
/// (more bytes needed) or a complete one.
pub struct MBAPParser {
    state: ParseState,
}

impl MBAPParser {
    /// Where the parser stands.
    pub closed spec fn spec_state(&self) -> ParseState {
        self.state
    }

    /// A held header never promises more payload than a frame may carry.
    pub open spec fn wf(&self) -> bool {
        match self.spec_state() {
            ParseState::Begin => true,
            ParseState::Header(h) => h.adu_length <= MAX_ADU_LENGTH,
        }
    }

    /// Create a parser waiting for a header.
    pub fn new() -> (r: Self)
        ensures
            r.wf(),
            r.spec_state() == ParseState::Begin,
    {
        MBAPParser { state: ParseState::Begin }
    }

    /// The most bytes a single frame can occupy.
    pub fn max_frame_size(&self) -> (r: usize)
        ensures
            r == MAX_MBAP_FRAME_LENGTH,
    {
        MAX_MBAP_FRAME_LENGTH
    }

    /// Read and validate the seven header bytes.
    fn parse_header(cursor: &mut ReadBuffer) -> (r: Result<MBAPHeader, RequestError>)
        requires
            old(cursor).wf(),
            old(cursor)@.len() >= MBAP_HEADER_LENGTH,
        ensures
            final(cursor).wf(),
            final(cursor).spec_capacity() == old(cursor).spec_capacity(),
            final(cursor)@ == old(cursor)@.skip(7),
            r == match spec_parse_header(old(cursor)@) {
                Ok(h) => Ok::<MBAPHeader, RequestError>(h),
                Err(e) => Err::<MBAPHeader, RequestError>(RequestError::BadFrame(e)),
            },
            r matches Ok(h) ==> h.adu_length <= MAX_ADU_LENGTH,
    {
        let tx_id = match cursor.read_u16_be() {
            Ok(v) => v,
            Err(_) => {
                return unreached();
            },
        };
        let protocol_id = match cursor.read_u16_be() {
            Ok(v) => v,
            Err(_) => {
                return unreached();
            },
        };
        let length = match cursor.read_u16_be() {
            Ok(v) => v,
            Err(_) => {
                return unreached();
            },
        };
        let unit_id = match cursor.read_u8() {
            Ok(v) => v,
            Err(_) => {
                return unreached();
            },
        };
        assert(final(cursor)@ =~= old(cursor)@.skip(7));
        assert(tx_id == spec_be16(old(cursor)@[0], old(cursor)@[1]));
        assert(protocol_id == spec_be16(old(cursor)@[2], old(cursor)@[3]));
        assert(length == spec_be16(old(cursor)@[4], old(cursor)@[5]));
        assert(unit_id == old(cursor)@[6]);

        if protocol_id != 0 {
            return Err(RequestError::BadFrame(FrameParseError::UnknownProtocolId(protocol_id)));
        }
        if length > MBAP_MAX_LENGTH_FIELD as u16 {
            return Err(
                RequestError::BadFrame(
                    FrameParseError::MbapLengthTooBig(length as usize, MBAP_MAX_LENGTH_FIELD),
                ),
            );
        }
        // must be > 0 because the 1-byte unit identifier counts towards it
        if length == 0 {
            return Err(RequestError::BadFrame(FrameParseError::MbapLengthZero));
        }
        Ok(MBAPHeader { tx_id, adu_length: (length - 1) as usize, unit_id })
    }

    /// Consume exactly the payload a header promises and build the frame.
    fn parse_body(header: &MBAPHeader, cursor: &mut ReadBuffer) -> (r: Frame)
        requires
            old(cursor).wf(),
            old(cursor)@.len() >= header.adu_length,
        ensures
            final(cursor).wf(),
            final(cursor).spec_capacity() == old(cursor).spec_capacity(),
            final(cursor)@ == old(cursor)@.skip(header.adu_length as int),
            r.tx_id == header.tx_id,
            r.unit_id == header.unit_id,
            r.payload@ == old(cursor)@.take(header.adu_length as int),
    {
        let payload = match cursor.read(header.adu_length) {
            Ok(p) => p,
            Err(_) => {
                return unreached();
            },
        };
        Frame { tx_id: header.tx_id, unit_id: header.unit_id, payload }
    }

    /// Run the parser over the unread bytes: `None` when more bytes are
    /// needed, a complete frame as soon as one is present, or the header
    /// validation error. The step taken is exactly `spec_parse` of the
    /// parser's state and the buffered bytes.
    pub fn parse(&mut self, cursor: &mut ReadBuffer) -> (r: Result<Option<Frame>, RequestError>)
        requires
            old(self).wf(),
            old(cursor).wf(),
        ensures
            final(self).wf(),
            final(cursor).wf(),
            final(cursor).spec_capacity() == old(cursor).spec_capacity(),
            ({
                let (s2, n, out) = spec_parse(old(self).spec_state(), old(cursor)@);
                &&& final(self).spec_state() == s2
                &&& final(cursor)@ == old(cursor)@.skip(n)
                &&& match out {
                    SpecParseStep::Incomplete => r == Ok::<Option<Frame>, RequestError>(None),
                    SpecParseStep::Frame(t, u, p) => {
                        &&& r matches Ok(Some(f))
                        &&& (r matches Ok(Some(f)) ==> f.tx_id == t && f.unit_id == u && f.payload@
                            == p && f.wf())
                    },
                    SpecParseStep::Error(e) => r == Err::<Option<Frame>, RequestError>(
                        RequestError::BadFrame(e),
                    ),
                }
            }),
    {
        match self.state {
            ParseState::Header(header) => {
                if cursor.len() < header.adu_length {
                    return Ok(None);
                }
                let frame = Self::parse_body(&header, cursor);
                self.state = ParseState::Begin;
                Ok(Some(frame))
            },
            ParseState::Begin => {
                if cursor.len() < MBAP_HEADER_LENGTH {
                    return Ok(None);
                }
                let header = match Self::parse_header(cursor) {
                    Ok(h) => h,
                    Err(e) => {
                        return Err(e);
                    },
                };
                if cursor.len() < header.adu_length {
                    self.state = ParseState::Header(header);
                    return Ok(None);
                }
                let frame = Self::parse_body(&header, cursor);
                self.state = ParseState::Begin;
                assert(final(cursor)@ =~= old(cursor)@.skip(7 + header.adu_length as int));
                assert(frame.payload@ =~= old(cursor)@.subrange(7, 7 + header.adu_length as int));
                Ok(Some(frame))
            },
        }
    }
}

/// The MBAP formatter: writes the header with a zero placeholder for the
/// length field, fills in the payload, then seeks back and writes the
/// measured length.
pub struct MBAPFormatter {
    cursor: WriteCursor,
}

impl MBAPFormatter {
    /// The scratch buffer always holds one maximal frame.
    pub closed spec fn wf(&self) -> bool {
        &&& self.cursor.wf()
        &&& self.cursor.spec_buf().len() == MAX_MBAP_FRAME_LENGTH
    }

    /// Create a formatter with its scratch buffer.
    pub fn new() -> (r: Self)
        ensures
            r.wf(),
    {
        MBAPFormatter { cursor: WriteCursor::new(MAX_MBAP_FRAME_LENGTH) }
    }

    /// Produce the wire image of a frame carrying the given payload.
    ///
    /// Fails exactly when the payload exceeds the largest ADU a frame can
    /// carry; otherwise the result is byte for byte the MBAP header followed
    /// by the payload.
    pub fn format(&mut self, tx_id: u16, unit_id: u8, payload: &[u8]) -> (r: Result<
        Vec<u8>,
        RequestError,
    >)
        requires
            old(self).wf(),
        ensures
            final(self).wf(),
            r is Ok <==> payload@.len() <= MAX_ADU_LENGTH,
            r matches Ok(v) ==> v@ == spec_format(tx_id, unit_id, payload@),
            payload@.len() > MAX_ADU_LENGTH ==> r == Err::<Vec<u8>, RequestError>(
                RequestError::Internal(InternalError::AduTooBig(payload@.len() as usize)),
            ),
    {
        if payload.len() > MAX_ADU_LENGTH {
            return Err(RequestError::Internal(InternalError::AduTooBig(payload.len())));
        }
        match self.cursor.seek_from_start(0) {
            Ok(_) => (),
            Err(_) => {
                return unreached();
            },
        }
        match self.cursor.write_u16_be(tx_id) {
            Ok(_) => (),
            Err(_) => {
                return unreached();
            },
        }
        match self.cursor.write_u16_be(0) {
            Ok(_) => (),
            Err(_) => {
                return unreached();
            },
        }
        // write the length later, once the payload is in place
        match self.cursor.seek_from_current(2) {
            Ok(_) => (),
            Err(_) => {
                return unreached();
            },
        }
        match self.cursor.write_u8(unit_id) {
            Ok(_) => (),
            Err(_) => {
                return unreached();
            },
        }
        match self.cursor.write_slice(payload) {
            Ok(_) => (),
            Err(_) => {
                return unreached();
            },
        }
        let adu_length = payload.len();
        let frame_length_value: u16 = (adu_length + 1) as u16;
        match self.cursor.seek_from_start(4) {
            Ok(_) => (),
            Err(_) => {
                return unreached();
            },
        }
        match self.cursor.write_u16_be(frame_length_value) {
            Ok(_) => (),
            Err(_) => {
                return unreached();
            },
        }
        let total_length = MBAP_HEADER_LENGTH + adu_length;
        let out = self.cursor.written(total_length);
        assert(out@ =~= spec_format(tx_id, unit_id, payload@));
        Ok(out)
    }
}

} // verus!
