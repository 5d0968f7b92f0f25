//! Core of a Modbus TCP client: MBAP frame codec, per-function-code PDU
//! codecs, request validation, and the decision logic of the channel task
//! that serializes requests onto a single TCP connection.

pub mod buffer;
pub mod channel;
pub mod cursor;
pub mod error;
pub mod exception;
pub mod frame;
pub mod mbap;
pub mod pdu;
pub mod reconnect;
pub mod types;
