//! The request envelope and the verified half of the channel task: input
//! validation before a request is queued, transaction-id allocation, frame
//! formatting for an exchange, and validation of the reply frame.
//!
//! The task's I/O loop lives outside the library; it moves bytes between the
//! socket and these functions and completes each caller's reply slot once.

use vstd::prelude::*;
use crate::error::{AduParseError, InvalidRange, InvalidRequest, RequestError};
use crate::frame::{Frame, MAX_ADU_LENGTH};
use crate::mbap::{spec_format, MBAPFormatter};
use crate::pdu::{
    serialize_read_request, serialize_write_multiple_coils, serialize_write_multiple_registers,
    serialize_write_single_request, spec_coil_value, spec_num_bit_bytes, spec_read_request_pdu,
    spec_write_multiple_coils_pdu, spec_write_multiple_registers_pdu, spec_write_single_pdu,
    FC_READ_COILS, FC_READ_DISCRETE_INPUTS, FC_READ_HOLDING_REGISTERS, FC_READ_INPUT_REGISTERS,
    FC_WRITE_MULTIPLE_COILS, FC_WRITE_MULTIPLE_REGISTERS, FC_WRITE_SINGLE_COIL,
    FC_WRITE_SINGLE_REGISTER,
};
use crate::types::{
    spec_range_valid, spec_validate_range, AddressRange, Indexed, UnitId, WriteMultiple,
    MAX_READ_BITS_COUNT, MAX_READ_REGISTERS_COUNT, MAX_WRITE_COILS_COUNT,
    MAX_WRITE_REGISTERS_COUNT,
};

verus! {

/// Request parameters that dispatch a request to the proper device: the unit
/// id, and the response timeout in milliseconds.
#[derive(Clone, Copy, Debug, PartialEq, Eq, Structural)]
pub struct RequestParam {
    /// Unit id of the target device.
    pub id: UnitId,
    /// How long to wait for the response, in milliseconds.
    pub response_timeout_ms: u64,
}

impl RequestParam {
    /// Create request parameters from both fields.
    pub fn new(id: UnitId, response_timeout_ms: u64) -> (r: Self)
        ensures
            r.id == id,
            r.response_timeout_ms == response_timeout_ms,
    {
        Self { id, response_timeout_ms }
    }
}

/// The tagged request variant over the supported function codes, each with
/// its typed payload. Validation happens in the constructors below, so a
/// value of this type is always fit to put on the wire.
#[derive(Clone, Debug)]
pub enum RequestDetails {
    /// Read coils over a validated range.
    ReadCoils(AddressRange),
    /// Read discrete inputs over a validated range.
    ReadDiscreteInputs(AddressRange),
    /// Read holding registers over a validated range.
    ReadHoldingRegisters(AddressRange),
    /// Read input registers over a validated range.
    ReadInputRegisters(AddressRange),
    /// Write one coil state.
    WriteSingleCoil(Indexed<bool>),
    /// Write one register value.
    WriteSingleRegister(Indexed<u16>),
    /// Write a validated run of coil states.
    WriteMultipleCoils(WriteMultiple<bool>),
    /// Write a validated run of register values.
    WriteMultipleRegisters(WriteMultiple<u16>),
}

impl RequestDetails {
    /// Every payload satisfies the validation of its function code.
    pub open spec fn wf(self) -> bool {
        match self {
            RequestDetails::ReadCoils(range) => spec_range_valid(
                range.start,
                range.count,
                MAX_READ_BITS_COUNT,
            ),
            RequestDetails::ReadDiscreteInputs(range) => spec_range_valid(
                range.start,
                range.count,
                MAX_READ_BITS_COUNT,
            ),
            RequestDetails::ReadHoldingRegisters(range) => spec_range_valid(
                range.start,
                range.count,
                MAX_READ_REGISTERS_COUNT,
            ),
            RequestDetails::ReadInputRegisters(range) => spec_range_valid(
                range.start,
                range.count,
                MAX_READ_REGISTERS_COUNT,
            ),
            RequestDetails::WriteSingleCoil(_) => true,
            RequestDetails::WriteSingleRegister(_) => true,
            RequestDetails::WriteMultipleCoils(wm) => wm.wf() && wm.values@.len()
                <= MAX_WRITE_COILS_COUNT,
            RequestDetails::WriteMultipleRegisters(wm) => wm.wf() && wm.values@.len()
                <= MAX_WRITE_REGISTERS_COUNT,
        }
    }

    /// The function code this request is sent under.
    pub open spec fn spec_function_code(self) -> u8 {
        match self {
            RequestDetails::ReadCoils(_) => FC_READ_COILS,
            RequestDetails::ReadDiscreteInputs(_) => FC_READ_DISCRETE_INPUTS,
            RequestDetails::ReadHoldingRegisters(_) => FC_READ_HOLDING_REGISTERS,
            RequestDetails::ReadInputRegisters(_) => FC_READ_INPUT_REGISTERS,
            RequestDetails::WriteSingleCoil(_) => FC_WRITE_SINGLE_COIL,
            RequestDetails::WriteSingleRegister(_) => FC_WRITE_SINGLE_REGISTER,
            RequestDetails::WriteMultipleCoils(_) => FC_WRITE_MULTIPLE_COILS,
            RequestDetails::WriteMultipleRegisters(_) => FC_WRITE_MULTIPLE_REGISTERS,
        }
    }

    /// The PDU this request is written as: the function code byte followed by
    /// the body.
    pub open spec fn spec_pdu(self) -> Seq<u8> {
        match self {
            RequestDetails::ReadCoils(range) => spec_read_request_pdu(FC_READ_COILS, range),
            RequestDetails::ReadDiscreteInputs(range) => spec_read_request_pdu(
                FC_READ_DISCRETE_INPUTS,
                range,
            ),
            RequestDetails::ReadHoldingRegisters(range) => spec_read_request_pdu(
                FC_READ_HOLDING_REGISTERS,
                range,
            ),
            RequestDetails::ReadInputRegisters(range) => spec_read_request_pdu(
                FC_READ_INPUT_REGISTERS,
                range,
            ),
            RequestDetails::WriteSingleCoil(v) => spec_write_single_pdu(
                FC_WRITE_SINGLE_COIL,
                v.index,
                spec_coil_value(v.value),
            ),
            RequestDetails::WriteSingleRegister(v) => spec_write_single_pdu(
                FC_WRITE_SINGLE_REGISTER,
                v.index,
                v.value,
            ),
            RequestDetails::WriteMultipleCoils(wm) => spec_write_multiple_coils_pdu(
                wm.range,
                wm.values@,
            ),
            RequestDetails::WriteMultipleRegisters(wm) => spec_write_multiple_registers_pdu(
                wm.range,
                wm.values@,
            ),
        }
    }

    /// A valid request's PDU always fits the largest ADU a frame can carry.
    pub proof fn lemma_pdu_fits(self)
        requires
            self.wf(),
        ensures
            1 <= self.spec_pdu().len() <= MAX_ADU_LENGTH,
    {
        match self {
            RequestDetails::WriteMultipleCoils(wm) => {
                assert(spec_num_bit_bytes(wm.values@.len() as int) <= 246);
            },
            _ => {},
        }
    }

    /// Validate a range for a read-coils request and wrap it.
    pub fn read_coils(range: AddressRange) -> (r: Result<Self, RequestError>)
        ensures
            r is Ok <==> spec_range_valid(range.start, range.count, MAX_READ_BITS_COUNT),
            r matches Ok(d) ==> d == RequestDetails::ReadCoils(range) && d.wf(),
            r matches Err(e) ==> e == RequestError::BadRequest(
                InvalidRequest::BadRange(
                    spec_validate_range(
                        range.start,
                        range.count,
                        MAX_READ_BITS_COUNT,
                    ).get_Err_0(),
                ),
            ),
    {
        match range.of_read_bits() {
            Ok(r) => Ok(RequestDetails::ReadCoils(r)),
            Err(e) => Err(RequestError::from_range(e)),
        }
    }

    /// Validate a range for a read-discrete-inputs request and wrap it.
    pub fn read_discrete_inputs(range: AddressRange) -> (r: Result<Self, RequestError>)
        ensures
            r is Ok <==> spec_range_valid(range.start, range.count, MAX_READ_BITS_COUNT),
            r matches Ok(d) ==> d == RequestDetails::ReadDiscreteInputs(range) && d.wf(),
            r matches Err(e) ==> e == RequestError::BadRequest(
                InvalidRequest::BadRange(
                    spec_validate_range(
                        range.start,
                        range.count,
                        MAX_READ_BITS_COUNT,
                    ).get_Err_0(),
                ),
            ),
    {
        match range.of_read_bits() {
            Ok(r) => Ok(RequestDetails::ReadDiscreteInputs(r)),
            Err(e) => Err(RequestError::from_range(e)),
        }
    }

    /// Validate a range for a read-holding-registers request and wrap it.
    pub fn read_holding_registers(range: AddressRange) -> (r: Result<Self, RequestError>)
        ensures
            r is Ok <==> spec_range_valid(range.start, range.count, MAX_READ_REGISTERS_COUNT),
            r matches Ok(d) ==> d == RequestDetails::ReadHoldingRegisters(range) && d.wf(),
            r matches Err(e) ==> e == RequestError::BadRequest(
                InvalidRequest::BadRange(
                    spec_validate_range(
                        range.start,
                        range.count,
                        MAX_READ_REGISTERS_COUNT,
                    ).get_Err_0(),
                ),
            ),
    {
        match range.of_read_registers() {
            Ok(r) => Ok(RequestDetails::ReadHoldingRegisters(r)),
            Err(e) => Err(RequestError::from_range(e)),
        }
    }

    /// Validate a range for a read-input-registers request and wrap it.
    pub fn read_input_registers(range: AddressRange) -> (r: Result<Self, RequestError>)
        ensures
            r is Ok <==> spec_range_valid(range.start, range.count, MAX_READ_REGISTERS_COUNT),
            r matches Ok(d) ==> d == RequestDetails::ReadInputRegisters(range) && d.wf(),
            r matches Err(e) ==> e == RequestError::BadRequest(
                InvalidRequest::BadRange(
                    spec_validate_range(
                        range.start,
                        range.count,
                        MAX_READ_REGISTERS_COUNT,
                    ).get_Err_0(),
                ),
            ),
    {
        match range.of_read_registers() {
            Ok(r) => Ok(RequestDetails::ReadInputRegisters(r)),
            Err(e) => Err(RequestError::from_range(e)),
        }
    }

    /// Wrap a single coil write; any index is valid.
    pub fn write_single_coil(value: Indexed<bool>) -> (r: Self)
        ensures
            r == RequestDetails::WriteSingleCoil(value),
            r.wf(),
    {
        RequestDetails::WriteSingleCoil(value)
    }

    /// Wrap a single register write; any index and value are valid.
    pub fn write_single_register(value: Indexed<u16>) -> (r: Self)
        ensures
            r == RequestDetails::WriteSingleRegister(value),
            r.wf(),
    {
        RequestDetails::WriteSingleRegister(value)
    }

    /// Validate a multiple coil write against its count cap and wrap it.
    pub fn write_multiple_coils(request: WriteMultiple<bool>) -> (r: Result<Self, RequestError>)
        requires
            request.wf(),
        ensures
            r is Ok <==> request.values@.len() <= MAX_WRITE_COILS_COUNT,
            r matches Ok(d) ==> d == RequestDetails::WriteMultipleCoils(request) && d.wf(),
            request.values@.len() > MAX_WRITE_COILS_COUNT ==> r == Err::<Self, RequestError>(
                RequestError::BadRequest(
                    InvalidRequest::CountTooBigForType(
                        request.range.count,
                        MAX_WRITE_COILS_COUNT,
                    ),
                ),
            ),
    {
        if request.values.len() > MAX_WRITE_COILS_COUNT as usize {
            return Err(
                RequestError::BadRequest(
                    InvalidRequest::CountTooBigForType(request.range.count, MAX_WRITE_COILS_COUNT),
                ),
            );
        }
        Ok(RequestDetails::WriteMultipleCoils(request))
    }

    /// Validate a multiple register write against its count cap and wrap it.
    pub fn write_multiple_registers(request: WriteMultiple<u16>) -> (r: Result<
        Self,
        RequestError,
    >)
        requires
            request.wf(),
        ensures
            r is Ok <==> request.values@.len() <= MAX_WRITE_REGISTERS_COUNT,
            r matches Ok(d) ==> d == RequestDetails::WriteMultipleRegisters(request) && d.wf(),
            request.values@.len() > MAX_WRITE_REGISTERS_COUNT ==> r == Err::<Self, RequestError>(
                RequestError::BadRequest(
                    InvalidRequest::CountTooBigForType(
                        request.range.count,
                        MAX_WRITE_REGISTERS_COUNT,
                    ),
                ),
            ),
    {
        if request.values.len() > MAX_WRITE_REGISTERS_COUNT as usize {
            return Err(
                RequestError::BadRequest(
                    InvalidRequest::CountTooBigForType(
                        request.range.count,
                        MAX_WRITE_REGISTERS_COUNT,
                    ),
                ),
            );
        }
        Ok(RequestDetails::WriteMultipleRegisters(request))
    }

    /// The function code this request is sent under.
    pub fn function_code(&self) -> (r: u8)
        ensures
            r == self.spec_function_code(),
            r < 0x80,
    {
        match self {
            RequestDetails::ReadCoils(_) => FC_READ_COILS,
            RequestDetails::ReadDiscreteInputs(_) => FC_READ_DISCRETE_INPUTS,
            RequestDetails::ReadHoldingRegisters(_) => FC_READ_HOLDING_REGISTERS,
            RequestDetails::ReadInputRegisters(_) => FC_READ_INPUT_REGISTERS,
            RequestDetails::WriteSingleCoil(_) => FC_WRITE_SINGLE_COIL,
            RequestDetails::WriteSingleRegister(_) => FC_WRITE_SINGLE_REGISTER,
            RequestDetails::WriteMultipleCoils(_) => FC_WRITE_MULTIPLE_COILS,
            RequestDetails::WriteMultipleRegisters(_) => FC_WRITE_MULTIPLE_REGISTERS,
        }
    }

    /// Serialize the request's PDU: the function code byte plus the body.
    pub fn serialize(&self) -> (r: Vec<u8>)
        requires
            self.wf(),
        ensures
            r@ == self.spec_pdu(),
            1 <= r@.len() <= MAX_ADU_LENGTH,
    {
        proof {
            self.lemma_pdu_fits();
        }
        match self {
            RequestDetails::ReadCoils(range) => serialize_read_request(FC_READ_COILS, *range),
            RequestDetails::ReadDiscreteInputs(range) => serialize_read_request(
                FC_READ_DISCRETE_INPUTS,
                *range,
            ),
            RequestDetails::ReadHoldingRegisters(range) => serialize_read_request(
                FC_READ_HOLDING_REGISTERS,
                *range,
            ),
            RequestDetails::ReadInputRegisters(range) => serialize_read_request(
                FC_READ_INPUT_REGISTERS,
                *range,
            ),
            RequestDetails::WriteSingleCoil(v) => serialize_write_single_request(
                FC_WRITE_SINGLE_COIL,
                v.index,
                crate::pdu::bool_to_coil_value(v.value),
            ),
            RequestDetails::WriteSingleRegister(v) => serialize_write_single_request(
                FC_WRITE_SINGLE_REGISTER,
                v.index,
                v.value,
            ),
            RequestDetails::WriteMultipleCoils(wm) => serialize_write_multiple_coils(wm),
            RequestDetails::WriteMultipleRegisters(wm) => serialize_write_multiple_registers(wm),
        }
    }
}

/// The transaction id counter: assigned per outgoing frame, wrapping modulo
/// 2^16. Correlation is positional, because only one request is outstanding.
#[derive(Clone, Copy, Debug, PartialEq, Eq, Structural)]
pub struct TxId {
    /// The id the next frame will carry.
    pub value: u16,
}

impl TxId {
    /// Start counting from zero.
    pub fn new() -> (r: Self)
        ensures
            r.value == 0,
    {
        TxId { value: 0 }
    }

    /// Take the current id for an outgoing frame and advance, wrapping at
    /// 2^16.
    pub fn next(&mut self) -> (r: u16)
        ensures
            r == old(self).value,
            old(self).value < 65535 ==> final(self).value == old(self).value + 1,
            old(self).value == 65535 ==> final(self).value == 0,
    {
        let ret = self.value;
        self.value = if self.value == 65535 {
            0
        } else {
            self.value + 1
        };
        ret
    }
}

/// Format the frame for one exchange: the request's PDU wrapped in an MBAP
/// header with the given transaction and unit ids. A valid request always
/// formats.
pub fn format_request(
    formatter: &mut MBAPFormatter,
    tx_id: u16,
    unit_id: u8,
    details: &RequestDetails,
) -> (r: Vec<u8>)
    requires
        old(formatter).wf(),
        details.wf(),
    ensures
        final(formatter).wf(),
        r@ == spec_format(tx_id, unit_id, details.spec_pdu()),
{
    let pdu = details.serialize();
    match formatter.format(tx_id, unit_id, pdu.as_slice()) {
        Ok(bytes) => bytes,
        Err(_) => unreached(),
    }
}

/// Check a reply frame against the exchange: its transaction id must be the
/// one sent and its unit id the one addressed; a mismatch discards the frame.
pub fn check_reply_frame(frame: &Frame, sent_tx_id: u16, unit_id: UnitId) -> (r: Result<
    (),
    RequestError,
>)
    ensures
        r is Ok <==> frame.tx_id == sent_tx_id && frame.unit_id == unit_id.value,
        r is Err ==> r == Err::<(), RequestError>(
            RequestError::BadResponse(AduParseError::ReplyEchoMismatch),
        ),
{
    if frame.tx_id == sent_tx_id && frame.unit_id == unit_id.value {
        Ok(())
    } else {
        Err(RequestError::BadResponse(AduParseError::ReplyEchoMismatch))
    }
}

} // verus!
