//! Per-function-code PDU codecs: serializers for the request bodies and
//! parsers for the responses, including exception-response detection.
//!
//! Bit packing puts bit `i` of a coil sequence into bit `i mod 8` of byte
//! `i div 8`, least-significant bit first.

use vstd::prelude::*;
use crate::cursor::WriteCursor;
use crate::error::{AduParseError, InternalError, RequestError};
use crate::exception::spec_exception_from_u8;
use crate::exception::ExceptionCode;
use crate::types::{AddressRange, Indexed, WriteMultiple};

verus! {

/// Function code: read coils.
pub const FC_READ_COILS: u8 = 0x01;

/// Function code: read discrete inputs.
pub const FC_READ_DISCRETE_INPUTS: u8 = 0x02;

/// Function code: read holding registers.
pub const FC_READ_HOLDING_REGISTERS: u8 = 0x03;

/// Function code: read input registers.
pub const FC_READ_INPUT_REGISTERS: u8 = 0x04;

/// Function code: write single coil.
pub const FC_WRITE_SINGLE_COIL: u8 = 0x05;

/// Function code: write single register.
pub const FC_WRITE_SINGLE_REGISTER: u8 = 0x06;

/// Function code: write multiple coils.
pub const FC_WRITE_MULTIPLE_COILS: u8 = 0x0F;

/// Function code: write multiple registers.
pub const FC_WRITE_MULTIPLE_REGISTERS: u8 = 0x10;

/// The wire encoding of a coil state: `true` is 0xFF00 and `false` is 0x0000.
pub open spec fn spec_coil_value(b: bool) -> u16 {
    if b {
        0xFF00u16
    } else {
        0u16
    }
}

/// Whether bit `j` of the byte is set.
pub open spec fn spec_bit_of_byte(b: u8, j: u8) -> bool {
    (b >> j) & 1 == 1
}

/// Whether bit `i` of a packed bit sequence is set: bit `i mod 8` of byte
/// `i div 8`.
pub open spec fn spec_packed_bit(bytes: Seq<u8>, i: int) -> bool {
    spec_bit_of_byte(bytes[i / 8], (i % 8) as u8)
}

/// How many bytes hold `n` packed bits.
pub open spec fn spec_num_bit_bytes(n: int) -> int {
    (n + 7) / 8
}

/// The byte packing bits `base + k .. base + 8` of the sequence, bits past
/// the end of the sequence left clear.
pub open spec fn spec_pack_byte(bits: Seq<bool>, base: int, k: nat) -> u8
    decreases 8 - k,
{
    if k >= 8 {
        0u8
    } else {
        (if base + k < bits.len() && bits[base + k] {
            1u8 << (k as u8)
        } else {
            0u8
        }) | spec_pack_byte(bits, base, (k + 1) as nat)
    }
}

/// The packed image of a bit sequence: `ceil(n/8)` bytes, bit `i` of the
/// sequence at bit `i mod 8` of byte `i div 8`, padding bits clear.
pub open spec fn spec_pack_bits(bits: Seq<bool>) -> Seq<u8> {
    Seq::new(spec_num_bit_bytes(bits.len() as int) as nat, |j: int| spec_pack_byte(bits, 8 * j, 0))
}

/// The big-endian image of a register sequence: two bytes per value, high
/// byte first.
pub open spec fn spec_reg_bytes(values: Seq<u16>) -> Seq<u8> {
    Seq::new(
        (2 * values.len()) as nat,
        |i: int|
            if i % 2 == 0 {
                (values[i / 2] / 256) as u8
            } else {
                (values[i / 2] % 256) as u8
            },
    )
}

/// Bit `j` of the byte packed from position `k` on is bit `base + j` of the
/// sequence when `k <= j` and that position exists, and clear otherwise.
proof fn lemma_pack_byte_bit(bits: Seq<bool>, base: int, k: nat, j: u8)
    requires
        k <= 8,
        j < 8,
    ensures
        spec_bit_of_byte(spec_pack_byte(bits, base, k), j) == (k <= j && base + j < bits.len()
            && bits[base + j]),
    decreases 8 - k,
{
    if k >= 8 {
        assert((0u8 >> j) & 1 == 0) by (bit_vector)
            requires
                j < 8,
        ;
    } else {
        lemma_pack_byte_bit(bits, base, (k + 1) as nat, j);
        let rest = spec_pack_byte(bits, base, (k + 1) as nat);
        let kk = k as u8;
        let term: u8 = if base + k < bits.len() && bits[base + k] {
            1u8 << kk
        } else {
            0u8
        };
        assert(((term | rest) >> j) & 1 == 1 <==> (((term >> j) & 1 == 1) || ((rest >> j) & 1
            == 1))) by (bit_vector);
        assert(((1u8 << kk) >> j) & 1 == 1 <==> j == kk) by (bit_vector)
            requires
                kk < 8,
                j < 8,
        ;
        assert((0u8 >> j) & 1 == 0) by (bit_vector)
            requires
                j < 8,
        ;
    }
}

/// Two bytes whose eight bits agree are equal.
proof fn lemma_u8_bits_determine(a: u8, b: u8)
    requires
        forall|j: u8| j < 8 ==> spec_bit_of_byte(a, j) == spec_bit_of_byte(b, j),
    ensures
        a == b,
{
    assert(spec_bit_of_byte(a, 0) == spec_bit_of_byte(b, 0));
    assert(spec_bit_of_byte(a, 1) == spec_bit_of_byte(b, 1));
    assert(spec_bit_of_byte(a, 2) == spec_bit_of_byte(b, 2));
    assert(spec_bit_of_byte(a, 3) == spec_bit_of_byte(b, 3));
    assert(spec_bit_of_byte(a, 4) == spec_bit_of_byte(b, 4));
    assert(spec_bit_of_byte(a, 5) == spec_bit_of_byte(b, 5));
    assert(spec_bit_of_byte(a, 6) == spec_bit_of_byte(b, 6));
    assert(spec_bit_of_byte(a, 7) == spec_bit_of_byte(b, 7));
    assert(a == b) by (bit_vector)
        requires
            ((a >> 0u8) & 1 == 1) <==> ((b >> 0u8) & 1 == 1),
            ((a >> 1u8) & 1 == 1) <==> ((b >> 1u8) & 1 == 1),
            ((a >> 2u8) & 1 == 1) <==> ((b >> 2u8) & 1 == 1),
            ((a >> 3u8) & 1 == 1) <==> ((b >> 3u8) & 1 == 1),
            ((a >> 4u8) & 1 == 1) <==> ((b >> 4u8) & 1 == 1),
            ((a >> 5u8) & 1 == 1) <==> ((b >> 5u8) & 1 == 1),
            ((a >> 6u8) & 1 == 1) <==> ((b >> 6u8) & 1 == 1),
            ((a >> 7u8) & 1 == 1) <==> ((b >> 7u8) & 1 == 1),
    ;
}

/// Unpacking a packed bit image returns the original sequence: bit `i` of
/// `spec_pack_bits(bits)` is `bits[i]` for every position of the sequence,
/// and every padding bit is clear.
pub proof fn lemma_pack_bits_inverse(bits: Seq<bool>)
    ensures
        spec_pack_bits(bits).len() == spec_num_bit_bytes(bits.len() as int),
        forall|i: int|
            0 <= i < bits.len() ==> #[trigger] spec_packed_bit(spec_pack_bits(bits), i) == bits[i],
        forall|i: int|
            bits.len() <= i < 8 * spec_pack_bits(bits).len() ==> !#[trigger] spec_packed_bit(
                spec_pack_bits(bits),
                i,
            ),
{
    let packed = spec_pack_bits(bits);
    assert forall|i: int| 0 <= i < 8 * packed.len() implies #[trigger] spec_packed_bit(packed, i)
        == (i < bits.len() && bits[i]) by {
        let q = i / 8;
        let r = i % 8;
        assert(0 <= q < packed.len());
        assert(0 <= r < 8);
        assert(packed[q] == spec_pack_byte(bits, 8 * q, 0));
        lemma_pack_byte_bit(bits, 8 * q, 0, r as u8);
        assert(8 * q + r == i);
    }
}

/// The first `n` bits unpacked from a packed image, in order.
pub open spec fn spec_unpack_bits(bytes: Seq<u8>, n: int) -> Seq<bool> {
    Seq::new(n as nat, |i: int| spec_packed_bit(bytes, i))
}

/// Bit packing is self-inverse: packing a sequence of coil states into
/// `ceil(n/8)` bytes and unpacking them again returns the original sequence.
pub proof fn lemma_pack_unpack_roundtrip(bits: Seq<bool>)
    ensures
        spec_unpack_bits(spec_pack_bits(bits), bits.len() as int) == bits,
{
    lemma_pack_bits_inverse(bits);
    assert(spec_unpack_bits(spec_pack_bits(bits), bits.len() as int) =~= bits);
}

/// Pack a sequence of coil states, least-significant bit first, padding bits
/// clear.
fn pack_bits(bits: &[bool]) -> (r: Vec<u8>)
    ensures
        r@ == spec_pack_bits(bits@),
        r@.len() == spec_num_bit_bytes(bits@.len() as int),
{
    let n = bits.len();
    let num_bytes = n / 8 + if n % 8 == 0 {
        0
    } else {
        1
    };
    let mut out: Vec<u8> = Vec::new();
    let mut base: usize = 0;
    while base < n
        invariant
            base <= n,
            n == bits@.len(),
            base == 8 * out@.len() || (base == n && out@.len() == spec_num_bit_bytes(n as int)),
            out@.len() <= spec_num_bit_bytes(n as int),
            forall|j: int| 0 <= j < out@.len() ==> out@[j] == spec_pack_byte(bits@, 8 * j, 0),
        decreases n - base,
    {
        let mut acc: u8 = 0;
        let mut count: u8 = 0;
        proof {
            assert forall|j: u8| j < 8 implies !spec_bit_of_byte(0u8, j) by {
                assert((0u8 >> j) & 1 == 0) by (bit_vector)
                    requires
                        j < 8,
                ;
            }
        }
        while count < 8 && base + (count as usize) < n
            invariant
                count <= 8,
                base + count <= n + 8,
                n == bits@.len(),
                count < 8 ==> base + count <= n,
                forall|j: u8|
                    j < 8 ==> (#[trigger] spec_bit_of_byte(acc, j) == (j < count && base + j
                        < bits@.len() && bits@[base + j])),
            decreases 8 - count,
        {
            let bit = bits[base + (count as usize)];
            let ghost acc0 = acc;
            if bit {
                acc = acc | (1u8 << count);
            }
            proof {
                let c = count;
                if bit {
                    assert forall|j: u8| j < 8 implies (#[trigger] spec_bit_of_byte(acc, j) == (j
                        < c + 1 && base + j < bits@.len() && bits@[base + j])) by {
                        assert(spec_bit_of_byte(acc0, j) == (j < c && base + j < bits@.len()
                            && bits@[base + j]));
                        assert(((acc0 | (1u8 << c)) >> j) & 1 == 1 <==> (((acc0 >> j) & 1 == 1) || j
                            == c)) by (bit_vector)
                            requires
                                c < 8,
                                j < 8,
                        ;
                    }
                } else {
                    assert forall|j: u8| j < 8 implies (#[trigger] spec_bit_of_byte(acc, j) == (j
                        < c + 1 && base + j < bits@.len() && bits@[base + j])) by {}
                }
            }
            count = count + 1;
        }
        proof {
            let target = spec_pack_byte(bits@, base as int, 0);
            assert forall|j: u8| j < 8 implies spec_bit_of_byte(acc, j) == spec_bit_of_byte(
                target,
                j,
            ) by {
                lemma_pack_byte_bit(bits@, base as int, 0, j);
            }
            lemma_u8_bits_determine(acc, target);
        }
        out.push(acc);
        if n - base <= 8 {
            base = n;
            proof {
                assert(out@.len() == spec_num_bit_bytes(n as int));
            }
        } else {
            base = base + 8;
        }
    }
    proof {
        assert(out@.len() == spec_num_bit_bytes(n as int));
        assert(out@ =~= spec_pack_bits(bits@));
    }
    out
}

/// The high byte of a 16-bit big-endian value.
pub open spec fn spec_hi(v: u16) -> u8 {
    (v / 256) as u8
}

/// The low byte of a 16-bit big-endian value.
pub open spec fn spec_lo(v: u16) -> u8 {
    (v % 256) as u8
}

/// The PDU of a read request: function code, then start and count big-endian.
pub open spec fn spec_read_request_pdu(fc: u8, range: AddressRange) -> Seq<u8> {
    seq![
        fc,
        spec_hi(range.start),
        spec_lo(range.start),
        spec_hi(range.count),
        spec_lo(range.count),
    ]
}

/// The PDU of a single write request: function code, then index and value
/// big-endian. The response echoes these five bytes.
pub open spec fn spec_write_single_pdu(fc: u8, index: u16, value: u16) -> Seq<u8> {
    seq![fc, spec_hi(index), spec_lo(index), spec_hi(value), spec_lo(value)]
}

/// The PDU of a write-multiple-coils request: function code, range, the
/// packed byte count, then the packed coil states.
pub open spec fn spec_write_multiple_coils_pdu(range: AddressRange, bits: Seq<bool>) -> Seq<u8> {
    seq![
        FC_WRITE_MULTIPLE_COILS,
        spec_hi(range.start),
        spec_lo(range.start),
        spec_hi(range.count),
        spec_lo(range.count),
        spec_num_bit_bytes(bits.len() as int) as u8,
    ] + spec_pack_bits(bits)
}

/// The PDU of a write-multiple-registers request: function code, range, the
/// byte count, then the values big-endian.
pub open spec fn spec_write_multiple_registers_pdu(range: AddressRange, values: Seq<u16>) -> Seq<
    u8,
> {
    seq![
        FC_WRITE_MULTIPLE_REGISTERS,
        spec_hi(range.start),
        spec_lo(range.start),
        spec_hi(range.count),
        spec_lo(range.count),
        (2 * values.len()) as u8,
    ] + spec_reg_bytes(values)
}

/// The wire value a coil state is written as.
pub fn bool_to_coil_value(value: bool) -> (r: u16)
    ensures
        r == spec_coil_value(value),
{
    if value {
        0xFF00
    } else {
        0x0000
    }
}

/// Decode a coil state from its wire value; anything but the two defined
/// encodings is an unknown coil state.
pub fn coil_value_to_bool(value: u16) -> (r: Result<bool, RequestError>)
    ensures
        value == 0xFF00 ==> r == Ok::<bool, RequestError>(true),
        value == 0x0000 ==> r == Ok::<bool, RequestError>(false),
        value != 0xFF00 && value != 0x0000 ==> r == Err::<bool, RequestError>(
            RequestError::BadResponse(AduParseError::UnknownCoilState(value)),
        ),
{
    if value == 0xFF00 {
        Ok(true)
    } else if value == 0x0000 {
        Ok(false)
    } else {
        Err(RequestError::BadResponse(AduParseError::UnknownCoilState(value)))
    }
}

/// Serialize a read request: function code, start, count.
pub fn serialize_read_request(fc: u8, range: AddressRange) -> (r: Vec<u8>)
    ensures
        r@ == spec_read_request_pdu(fc, range),
{
    let mut out: Vec<u8> = Vec::new();
    out.push(fc);
    out.push((range.start / 256) as u8);
    out.push((range.start % 256) as u8);
    out.push((range.count / 256) as u8);
    out.push((range.count % 256) as u8);
    assert(out@ =~= spec_read_request_pdu(fc, range));
    out
}

/// Serialize a single write request: function code, index, value.
pub fn serialize_write_single_request(fc: u8, index: u16, value: u16) -> (r: Vec<u8>)
    ensures
        r@ == spec_write_single_pdu(fc, index, value),
{
    let mut out: Vec<u8> = Vec::new();
    out.push(fc);
    out.push((index / 256) as u8);
    out.push((index % 256) as u8);
    out.push((value / 256) as u8);
    out.push((value % 256) as u8);
    assert(out@ =~= spec_write_single_pdu(fc, index, value));
    out
}

/// Serialize a write-multiple-coils request, packing the coil states.
pub fn serialize_write_multiple_coils(request: &WriteMultiple<bool>) -> (r: Vec<u8>)
    requires
        request.wf(),
        request.values@.len() <= crate::types::MAX_WRITE_COILS_COUNT,
    ensures
        r@ == spec_write_multiple_coils_pdu(request.range, request.values@),
{
    let mut out: Vec<u8> = Vec::new();
    out.push(FC_WRITE_MULTIPLE_COILS);
    out.push((request.range.start / 256) as u8);
    out.push((request.range.start % 256) as u8);
    out.push((request.range.count / 256) as u8);
    out.push((request.range.count % 256) as u8);
    let mut packed = pack_bits(request.values.as_slice());
    out.push(packed.len() as u8);
    out.append(&mut packed);
    assert(out@ =~= spec_write_multiple_coils_pdu(request.range, request.values@));
    out
}

/// Serialize a write-multiple-registers request, values big-endian.
pub fn serialize_write_multiple_registers(request: &WriteMultiple<u16>) -> (r: Vec<u8>)
    requires
        request.wf(),
        request.values@.len() <= crate::types::MAX_WRITE_REGISTERS_COUNT,
    ensures
        r@ == spec_write_multiple_registers_pdu(request.range, request.values@),
{
    let mut out: Vec<u8> = Vec::new();
    out.push(FC_WRITE_MULTIPLE_REGISTERS);
    out.push((request.range.start / 256) as u8);
    out.push((request.range.start % 256) as u8);
    out.push((request.range.count / 256) as u8);
    out.push((request.range.count % 256) as u8);
    out.push((2 * request.values.len()) as u8);
    let ghost head = out@;
    let mut k: usize = 0;
    while k < request.values.len()
        invariant
            k <= request.values@.len(),
            out@ =~= head + spec_reg_bytes(request.values@.take(k as int)),
        decreases request.values@.len() - k,
    {
        let v = request.values[k];
        out.push((v / 256) as u8);
        out.push((v % 256) as u8);
        proof {
            assert(out@ =~= head + spec_reg_bytes(request.values@.take(k as int + 1)));
        }
        k = k + 1;
    }
    proof {
        assert(request.values@.take(request.values@.len() as int) =~= request.values@);
        assert(out@ =~= spec_write_multiple_registers_pdu(request.range, request.values@));
    }
    out
}

/// What the function-code byte of a response dictates before the body is
/// looked at: the request's code means success parsing goes ahead; the code
/// with the high bit set carries a one-byte exception; anything else is an
/// unknown response function.
pub open spec fn spec_response_envelope(fc: u8, p: Seq<u8>) -> Result<(), RequestError> {
    if p.len() == 0 {
        Err(RequestError::BadResponse(AduParseError::InsufficientBytes))
    } else if p[0] == fc {
        Ok(())
    } else if p[0] == (fc + 0x80) as u8 {
        if p.len() < 2 {
            Err(RequestError::BadResponse(AduParseError::InsufficientBytes))
        } else {
            Err(RequestError::Exception(spec_exception_from_u8(p[1])))
        }
    } else {
        Err(
            RequestError::BadResponse(
                AduParseError::UnknownResponseFunction(p[0], fc, (fc + 0x80) as u8),
            ),
        )
    }
}

/// Check the function-code byte of a response against the request's code,
/// turning an exception response into its error.
fn check_response_fc(fc: u8, payload: &[u8]) -> (r: Result<(), RequestError>)
    requires
        fc < 0x80,
    ensures
        r == spec_response_envelope(fc, payload@),
{
    if payload.len() == 0 {
        return Err(RequestError::BadResponse(AduParseError::InsufficientBytes));
    }
    let received = payload[0];
    if received == fc {
        Ok(())
    } else if received == fc + 0x80 {
        if payload.len() < 2 {
            Err(RequestError::BadResponse(AduParseError::InsufficientBytes))
        } else {
            Err(RequestError::Exception(ExceptionCode::from_u8(payload[1])))
        }
    } else {
        Err(
            RequestError::BadResponse(
                AduParseError::UnknownResponseFunction(received, fc, fc + 0x80),
            ),
        )
    }
}

/// Parse the response to a read-coils or read-discrete-inputs request: the
/// declared byte count must match both the bytes present and the count of
/// the request; each bit is paired with its address.
pub fn parse_read_bits_response(fc: u8, range: AddressRange, payload: &[u8]) -> (r: Result<
    Vec<Indexed<bool>>,
    RequestError,
>)
    requires
        fc < 0x80,
        range.start + range.count <= 65536,
    ensures
        spec_response_envelope(fc, payload@) matches Err(e) ==> r == Err::<
            Vec<Indexed<bool>>,
            RequestError,
        >(e),
        spec_response_envelope(fc, payload@) is Ok ==> ({
            let declared = payload@[1] as int;
            let remaining = payload@.len() - 2;
            let expected = spec_num_bit_bytes(range.count as int);
            &&& payload@.len() < 2 ==> r == Err::<Vec<Indexed<bool>>, RequestError>(
                RequestError::BadResponse(AduParseError::InsufficientBytes),
            )
            &&& payload@.len() >= 2 && declared != remaining ==> r == Err::<
                Vec<Indexed<bool>>,
                RequestError,
            >(
                RequestError::BadResponse(
                    AduParseError::InsufficientBytesForByteCount(
                        declared as usize,
                        remaining as usize,
                    ),
                ),
            )
            &&& payload@.len() >= 2 && declared == remaining && declared < expected ==> r == Err::<
                Vec<Indexed<bool>>,
                RequestError,
            >(RequestError::BadResponse(AduParseError::InsufficientBytes))
            &&& payload@.len() >= 2 && declared == remaining && declared > expected ==> r == Err::<
                Vec<Indexed<bool>>,
                RequestError,
            >(RequestError::BadResponse(AduParseError::TrailingBytes((declared - expected) as usize)))
            &&& payload@.len() >= 2 && declared == remaining && declared == expected ==> ({
                &&& r matches Ok(v)
                &&& (r matches Ok(v) ==> v@.len() == range.count && forall|i: int|
                    0 <= i < range.count ==> (#[trigger] v@[i]).index == range.start + i && v@[i].value
                        == spec_packed_bit(payload@.skip(2), i))
            })
        }),
{
    match check_response_fc(fc, payload) {
        Ok(_) => (),
        Err(e) => {
            return Err(e);
        },
    }
    if payload.len() < 2 {
        return Err(RequestError::BadResponse(AduParseError::InsufficientBytes));
    }
    let declared: usize = payload[1] as usize;
    let remaining: usize = payload.len() - 2;
    if declared != remaining {
        return Err(
            RequestError::BadResponse(
                AduParseError::InsufficientBytesForByteCount(declared, remaining),
            ),
        );
    }
    let count: usize = range.count as usize;
    let expected: usize = count / 8 + if count % 8 == 0 {
        0
    } else {
        1
    };
    assert(expected == spec_num_bit_bytes(range.count as int));
    if declared < expected {
        return Err(RequestError::BadResponse(AduParseError::InsufficientBytes));
    }
    if declared > expected {
        return Err(RequestError::BadResponse(AduParseError::TrailingBytes(declared - expected)));
    }
    let mut out: Vec<Indexed<bool>> = Vec::new();
    let mut i: usize = 0;
    while i < count
        invariant
            i <= count,
            count == range.count,
            range.start + range.count <= 65536,
            payload@.len() == 2 + spec_num_bit_bytes(count as int),
            count <= 8 * spec_num_bit_bytes(count as int),
            out@.len() == i,
            forall|j: int|
                0 <= j < i ==> (#[trigger] out@[j]).index == range.start + j && out@[j].value
                    == spec_packed_bit(payload@.skip(2), j),
        decreases count - i,
    {
        let byte = payload[2 + i / 8];
        let bit = (byte >> ((i % 8) as u8)) & 1 == 1;
        proof {
            assert(payload@.skip(2)[i as int / 8] == payload@[2 + i as int / 8]);
            assert(i as int % 8 == (i % 8) as int);
        }
        let index: u16 = range.start + (i as u16);
        out.push(Indexed { index, value: bit });
        i = i + 1;
    }
    Ok(out)
}

/// Parse the response to a read-holding-registers or read-input-registers
/// request: the declared byte count must match both the bytes present and
/// twice the count of the request; each big-endian value is paired with its
/// address.
pub fn parse_read_registers_response(fc: u8, range: AddressRange, payload: &[u8]) -> (r: Result<
    Vec<Indexed<u16>>,
    RequestError,
>)
    requires
        fc < 0x80,
        range.start + range.count <= 65536,
        range.count <= crate::types::MAX_READ_REGISTERS_COUNT,
    ensures
        spec_response_envelope(fc, payload@) matches Err(e) ==> r == Err::<
            Vec<Indexed<u16>>,
            RequestError,
        >(e),
        spec_response_envelope(fc, payload@) is Ok ==> ({
            let declared = payload@[1] as int;
            let remaining = payload@.len() - 2;
            let expected = 2 * range.count as int;
            &&& payload@.len() < 2 ==> r == Err::<Vec<Indexed<u16>>, RequestError>(
                RequestError::BadResponse(AduParseError::InsufficientBytes),
            )
            &&& payload@.len() >= 2 && declared != remaining ==> r == Err::<
                Vec<Indexed<u16>>,
                RequestError,
            >(
                RequestError::BadResponse(
                    AduParseError::InsufficientBytesForByteCount(
                        declared as usize,
                        remaining as usize,
                    ),
                ),
            )
            &&& payload@.len() >= 2 && declared == remaining && declared < expected ==> r == Err::<
                Vec<Indexed<u16>>,
                RequestError,
            >(RequestError::BadResponse(AduParseError::InsufficientBytes))
            &&& payload@.len() >= 2 && declared == remaining && declared > expected ==> r == Err::<
                Vec<Indexed<u16>>,
                RequestError,
            >(RequestError::BadResponse(AduParseError::TrailingBytes((declared - expected) as usize)))
            &&& payload@.len() >= 2 && declared == remaining && declared == expected ==> ({
                &&& r matches Ok(v)
                &&& (r matches Ok(v) ==> v@.len() == range.count && forall|i: int|
                    0 <= i < range.count ==> (#[trigger] v@[i]).index == range.start + i && v@[i].value
                        == spec_be16_at(payload@, 2 + 2 * i))
            })
        }),
{
    match check_response_fc(fc, payload) {
        Ok(_) => (),
        Err(e) => {
            return Err(e);
        },
    }
    if payload.len() < 2 {
        return Err(RequestError::BadResponse(AduParseError::InsufficientBytes));
    }
    let declared: usize = payload[1] as usize;
    let remaining: usize = payload.len() - 2;
    if declared != remaining {
        return Err(
            RequestError::BadResponse(
                AduParseError::InsufficientBytesForByteCount(declared, remaining),
            ),
        );
    }
    let count: usize = range.count as usize;
    let expected: usize = 2 * count;
    if declared < expected {
        return Err(RequestError::BadResponse(AduParseError::InsufficientBytes));
    }
    if declared > expected {
        return Err(RequestError::BadResponse(AduParseError::TrailingBytes(declared - expected)));
    }
    let mut out: Vec<Indexed<u16>> = Vec::new();
    let mut i: usize = 0;
    while i < count
        invariant
            i <= count,
            count == range.count,
            range.start + range.count <= 65536,
            payload@.len() == 2 + 2 * count,
            out@.len() == i,
            forall|j: int|
                0 <= j < i ==> (#[trigger] out@[j]).index == range.start + j && out@[j].value
                    == spec_be16_at(payload@, 2 + 2 * j),
        decreases count - i,
    {
        let hi = payload[2 + 2 * i];
        let lo = payload[3 + 2 * i];
        let value: u16 = (hi as u16) * 256 + (lo as u16);
        let index: u16 = range.start + (i as u16);
        out.push(Indexed { index, value });
        i = i + 1;
    }
    Ok(out)
}

/// The big-endian 16-bit value at offset `i` of a byte sequence.
pub open spec fn spec_be16_at(p: Seq<u8>, i: int) -> u16 {
    ((p[i] as int) * 256 + (p[i + 1] as int)) as u16
}

/// Parse the echoed response to a single write request: exactly the five
/// request bytes must come back.
pub fn parse_write_single_response(fc: u8, index: u16, value: u16, payload: &[u8]) -> (r: Result<
    Indexed<u16>,
    RequestError,
>)
    requires
        fc < 0x80,
    ensures
        spec_response_envelope(fc, payload@) matches Err(e) ==> r == Err::<
            Indexed<u16>,
            RequestError,
        >(e),
        spec_response_envelope(fc, payload@) is Ok ==> ({
            &&& payload@.len() < 5 ==> r == Err::<Indexed<u16>, RequestError>(
                RequestError::BadResponse(AduParseError::InsufficientBytes),
            )
            &&& payload@.len() > 5 ==> r == Err::<Indexed<u16>, RequestError>(
                RequestError::BadResponse(
                    AduParseError::TrailingBytes((payload@.len() - 5) as usize),
                ),
            )
            &&& payload@.len() == 5 && payload@ != spec_write_single_pdu(fc, index, value) ==> r
                == Err::<Indexed<u16>, RequestError>(
                RequestError::BadResponse(AduParseError::ReplyEchoMismatch),
            )
            &&& payload@ == spec_write_single_pdu(fc, index, value) ==> r == Ok::<
                Indexed<u16>,
                RequestError,
            >(Indexed { index, value })
        }),
{
    match check_response_fc(fc, payload) {
        Ok(_) => (),
        Err(e) => {
            return Err(e);
        },
    }
    if payload.len() < 5 {
        return Err(RequestError::BadResponse(AduParseError::InsufficientBytes));
    }
    if payload.len() > 5 {
        return Err(RequestError::BadResponse(AduParseError::TrailingBytes(payload.len() - 5)));
    }
    let echo_ok = payload[1] == (index / 256) as u8 && payload[2] == (index % 256) as u8
        && payload[3] == (value / 256) as u8 && payload[4] == (value % 256) as u8;
    if !echo_ok {
        assert(payload@ != spec_write_single_pdu(fc, index, value));
        return Err(RequestError::BadResponse(AduParseError::ReplyEchoMismatch));
    }
    assert(payload@ =~= spec_write_single_pdu(fc, index, value));
    Ok(Indexed { index, value })
}

/// Parse the response to a write-multiple request: the echoed range must
/// match the request's.
pub fn parse_write_multiple_response(fc: u8, range: AddressRange, payload: &[u8]) -> (r: Result<
    AddressRange,
    RequestError,
>)
    requires
        fc < 0x80,
    ensures
        spec_response_envelope(fc, payload@) matches Err(e) ==> r == Err::<
            AddressRange,
            RequestError,
        >(e),
        spec_response_envelope(fc, payload@) is Ok ==> ({
            let echo = seq![
                fc,
                spec_hi(range.start),
                spec_lo(range.start),
                spec_hi(range.count),
                spec_lo(range.count),
            ];
            &&& payload@.len() < 5 ==> r == Err::<AddressRange, RequestError>(
                RequestError::BadResponse(AduParseError::InsufficientBytes),
            )
            &&& payload@.len() > 5 ==> r == Err::<AddressRange, RequestError>(
                RequestError::BadResponse(
                    AduParseError::TrailingBytes((payload@.len() - 5) as usize),
                ),
            )
            &&& payload@.len() == 5 && payload@ != echo ==> r == Err::<
                AddressRange,
                RequestError,
            >(RequestError::BadResponse(AduParseError::ReplyEchoMismatch))
            &&& payload@ == echo ==> r == Ok::<AddressRange, RequestError>(range)
        }),
{
    match check_response_fc(fc, payload) {
        Ok(_) => (),
        Err(e) => {
            return Err(e);
        },
    }
    if payload.len() < 5 {
        return Err(RequestError::BadResponse(AduParseError::InsufficientBytes));
    }
    if payload.len() > 5 {
        return Err(RequestError::BadResponse(AduParseError::TrailingBytes(payload.len() - 5)));
    }
    let echo_ok = payload[1] == (range.start / 256) as u8 && payload[2] == (range.start % 256) as u8
        && payload[3] == (range.count / 256) as u8 && payload[4] == (range.count % 256) as u8;
    let ghost echo = seq![
        fc,
        spec_hi(range.start),
        spec_lo(range.start),
        spec_hi(range.count),
        spec_lo(range.count),
    ];
    if !echo_ok {
        assert(payload@ != echo);
        return Err(RequestError::BadResponse(AduParseError::ReplyEchoMismatch));
    }
    assert(payload@ =~= echo);
    Ok(range)
}

impl AddressRange {
    /// Write the range's start and count big-endian at the cursor position.
    pub fn serialize(&self, cursor: &mut WriteCursor) -> (r: Result<(), RequestError>)
        requires
            old(cursor).wf(),
        ensures
            final(cursor).wf(),
            final(cursor).spec_buf().len() == old(cursor).spec_buf().len(),
            r is Ok <==> old(cursor).spec_pos() + 4 <= old(cursor).spec_buf().len(),
            r is Ok ==> ({
                let p = old(cursor).spec_pos();
                &&& final(cursor).spec_pos() == p + 4
                &&& final(cursor).spec_buf() == old(cursor).spec_buf().update(
                    p,
                    spec_hi(self.start),
                ).update(p + 1, spec_lo(self.start)).update(p + 2, spec_hi(self.count)).update(
                    p + 3,
                    spec_lo(self.count),
                )
            }),
            r is Err ==> r matches Err(RequestError::Internal(
                InternalError::InsufficientWriteSpace(_, _),
            )),
    {
        match cursor.write_u16_be(self.start) {
            Ok(_) => (),
            Err(e) => {
                return Err(RequestError::Internal(e));
            },
        }
        match cursor.write_u16_be(self.count) {
            Ok(_) => (),
            Err(e) => {
                return Err(RequestError::Internal(e));
            },
        }
        Ok(())
    }
}

impl Indexed<u16> {
    /// Write the index and value big-endian at the cursor position.
    pub fn serialize(&self, cursor: &mut WriteCursor) -> (r: Result<(), RequestError>)
        requires
            old(cursor).wf(),
        ensures
            final(cursor).wf(),
            final(cursor).spec_buf().len() == old(cursor).spec_buf().len(),
            r is Ok <==> old(cursor).spec_pos() + 4 <= old(cursor).spec_buf().len(),
            r is Ok ==> ({
                let p = old(cursor).spec_pos();
                &&& final(cursor).spec_pos() == p + 4
                &&& final(cursor).spec_buf() == old(cursor).spec_buf().update(
                    p,
                    spec_hi(self.index),
                ).update(p + 1, spec_lo(self.index)).update(p + 2, spec_hi(self.value)).update(
                    p + 3,
                    spec_lo(self.value),
                )
            }),
            r is Err ==> r matches Err(RequestError::Internal(
                InternalError::InsufficientWriteSpace(_, _),
            )),
    {
        match cursor.write_u16_be(self.index) {
            Ok(_) => (),
            Err(e) => {
                return Err(RequestError::Internal(e));
            },
        }
        match cursor.write_u16_be(self.value) {
            Ok(_) => (),
            Err(e) => {
                return Err(RequestError::Internal(e));
            },
        }
        Ok(())
    }
}

} // verus!
