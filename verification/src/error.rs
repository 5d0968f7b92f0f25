//! Error taxonomy of the client: transport, protocol and validation errors.

use vstd::prelude::*;
use crate::exception::ExceptionCode;

verus! {

/// Transport-level failure kinds, as the library distinguishes them.
#[derive(Clone, Copy, Debug, PartialEq, Eq, Structural)]
pub enum IoKind {
    /// The peer closed the stream in the middle of a frame.
    UnexpectedEof,
    /// The connection was reset by the peer.
    ConnectionReset,
    /// The connection was aborted.
    ConnectionAborted,
    /// Writing failed because the peer stopped reading.
    BrokenPipe,
    /// The connection attempt was refused.
    ConnectionRefused,
    /// The operation timed out at the socket level.
    TimedOut,
    /// Any other transport failure.
    Other,
}

/// Errors produced when validating the `start`/`count` pair of a request.
#[derive(Clone, Copy, Debug, PartialEq, Eq, Structural)]
pub enum InvalidRange {
    /// A count of zero is never allowed.
    CountOfZero,
    /// `start + count` overflows the 16-bit address space (start, count).
    AddressOverflow(u16, u16),
    /// The count exceeds the cap of the request's function code (actual, limit).
    CountTooLargeForType(u16, u16),
}

/// Errors that indicate faulty logic in the library itself if they occur.
#[derive(Clone, Copy, Debug, PartialEq, Eq, Structural)]
pub enum InternalError {
    /// Insufficient space for a write operation (written, remaining).
    InsufficientWriteSpace(usize, usize),
    /// The ADU is larger than the maximum allowed size.
    AduTooBig(usize),
    /// The calculated frame size exceeds the allowed maximum (size, maximum).
    FrameTooBig(usize, usize),
    /// Attempted to read more bytes than present (requested, remaining).
    InsufficientBytesForRead(usize, usize),
    /// A cursor seek went outside the bounds of the underlying buffer.
    BadSeekOperation,
    /// The byte count exceeds the maximum size of a u8.
    BadByteCount(usize),
}

/// Errors that occur while parsing an MBAP frame off a stream.
#[derive(Clone, Copy, Debug, PartialEq, Eq, Structural)]
pub enum FrameParseError {
    /// Received a frame with the length field set to zero.
    MbapLengthZero,
    /// Received a frame whose length exceeds the allowed maximum (actual, maximum).
    MbapLengthTooBig(usize, usize),
    /// Received a frame with a non-Modbus protocol id.
    UnknownProtocolId(u16),
}

/// Errors that occur while parsing a response ADU.
#[derive(Clone, Copy, Debug, PartialEq, Eq, Structural)]
pub enum AduParseError {
    /// The response is too short to be valid.
    InsufficientBytes,
    /// The declared byte count does not match the bytes present (count, remaining).
    InsufficientBytesForByteCount(usize, usize),
    /// The response contains extra trailing bytes.
    TrailingBytes(usize),
    /// A parameter expected to be echoed in the reply did not match.
    ReplyEchoMismatch,
    /// An unknown response function code was received (actual, expected, expected error).
    UnknownResponseFunction(u8, u8, u8),
    /// Bad value for a coil state.
    UnknownCoilState(u16),
}

/// Errors that result from a bad request parameter; they never reach the wire.
#[derive(Clone, Copy, Debug, PartialEq, Eq, Structural)]
pub enum InvalidRequest {
    /// The request contained an invalid range.
    BadRange(InvalidRange),
    /// The count is too big to fit in a u16.
    CountTooBigForU16(usize),
    /// The count is too big for the specific request (actual, maximum).
    CountTooBigForType(u16, u16),
}

/// Top level error type for the client API.
#[derive(Clone, Copy, Debug, PartialEq, Eq, Structural)]
pub enum RequestError {
    /// An I/O error occurred.
    Io(IoKind),
    /// The server returned a Modbus exception.
    Exception(ExceptionCode),
    /// The request was not performed because it is invalid.
    BadRequest(InvalidRequest),
    /// A frame from the server could not be parsed.
    BadFrame(FrameParseError),
    /// The response ADU was invalid.
    BadResponse(AduParseError),
    /// An internal error occurred in the library itself.
    Internal(InternalError),
    /// The timeout expired before a response arrived.
    ResponseTimeout,
    /// No connection could be made to the server.
    NoConnection,
    /// The task processing requests has been shut down.
    Shutdown,
}

impl RequestError {
    /// Wrap a range-validation error as a request error.
    pub fn from_range(err: InvalidRange) -> (r: Self)
        ensures
            r == RequestError::BadRequest(InvalidRequest::BadRange(err)),
    {
        RequestError::BadRequest(InvalidRequest::BadRange(err))
    }
}

} // verus!
