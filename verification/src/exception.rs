//! The standard Modbus exception codes carried by exception responses.

use vstd::prelude::*;

verus! {

/// One of the nine standard Modbus exception codes, or a catch-all for any
/// other value the server may send.
#[derive(Clone, Copy, Debug, PartialEq, Eq, Structural)]
pub enum ExceptionCode {
    /// The function code is not supported by the server (0x01).
    IllegalFunction,
    /// The requested address range is not valid on the server (0x02).
    IllegalDataAddress,
    /// A value in the request is not allowed (0x03).
    IllegalDataValue,
    /// An unrecoverable error occurred on the server (0x04).
    ServerDeviceFailure,
    /// The server accepted a long-running request (0x05).
    Acknowledge,
    /// The server is busy with a long-running request (0x06).
    ServerDeviceBusy,
    /// The server detected a parity error in its memory (0x08).
    MemoryParityError,
    /// The gateway could not allocate a path to the target (0x0A).
    GatewayPathUnavailable,
    /// The target device behind the gateway did not respond (0x0B).
    GatewayTargetDeviceFailedToRespond,
    /// Any exception code outside the standard set.
    Unknown(u8),
}

/// The exception code denoted by a raw exception byte.
pub open spec fn spec_exception_from_u8(value: u8) -> ExceptionCode {
    if value == 0x01 {
        ExceptionCode::IllegalFunction
    } else if value == 0x02 {
        ExceptionCode::IllegalDataAddress
    } else if value == 0x03 {
        ExceptionCode::IllegalDataValue
    } else if value == 0x04 {
        ExceptionCode::ServerDeviceFailure
    } else if value == 0x05 {
        ExceptionCode::Acknowledge
    } else if value == 0x06 {
        ExceptionCode::ServerDeviceBusy
    } else if value == 0x08 {
        ExceptionCode::MemoryParityError
    } else if value == 0x0A {
        ExceptionCode::GatewayPathUnavailable
    } else if value == 0x0B {
        ExceptionCode::GatewayTargetDeviceFailedToRespond
    } else {
        ExceptionCode::Unknown(value)
    }
}

/// The raw byte that stands for an exception code on the wire.
pub open spec fn spec_exception_to_u8(code: ExceptionCode) -> u8 {
    match code {
        ExceptionCode::IllegalFunction => 0x01,
        ExceptionCode::IllegalDataAddress => 0x02,
        ExceptionCode::IllegalDataValue => 0x03,
        ExceptionCode::ServerDeviceFailure => 0x04,
        ExceptionCode::Acknowledge => 0x05,
        ExceptionCode::ServerDeviceBusy => 0x06,
        ExceptionCode::MemoryParityError => 0x08,
        ExceptionCode::GatewayPathUnavailable => 0x0A,
        ExceptionCode::GatewayTargetDeviceFailedToRespond => 0x0B,
        ExceptionCode::Unknown(value) => value,
    }
}

impl ExceptionCode {
    /// Decode a raw exception byte received from the server.
    pub fn from_u8(value: u8) -> (r: Self)
        ensures
            r == spec_exception_from_u8(value),
    {
        match value {
            0x01 => ExceptionCode::IllegalFunction,
            0x02 => ExceptionCode::IllegalDataAddress,
            0x03 => ExceptionCode::IllegalDataValue,
            0x04 => ExceptionCode::ServerDeviceFailure,
            0x05 => ExceptionCode::Acknowledge,
            0x06 => ExceptionCode::ServerDeviceBusy,
            0x08 => ExceptionCode::MemoryParityError,
            0x0A => ExceptionCode::GatewayPathUnavailable,
            0x0B => ExceptionCode::GatewayTargetDeviceFailedToRespond,
            _ => ExceptionCode::Unknown(value),
        }
    }

    /// The raw byte this code is written as on the wire.
    pub fn to_u8(self) -> (r: u8)
        ensures
            r == spec_exception_to_u8(self),
    {
        match self {
            ExceptionCode::IllegalFunction => 0x01,
            ExceptionCode::IllegalDataAddress => 0x02,
            ExceptionCode::IllegalDataValue => 0x03,
            ExceptionCode::ServerDeviceFailure => 0x04,
            ExceptionCode::Acknowledge => 0x05,
            ExceptionCode::ServerDeviceBusy => 0x06,
            ExceptionCode::MemoryParityError => 0x08,
            ExceptionCode::GatewayPathUnavailable => 0x0A,
            ExceptionCode::GatewayTargetDeviceFailedToRespond => 0x0B,
            ExceptionCode::Unknown(value) => value,
        }
    }
}

} // verus!
