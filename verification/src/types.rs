//! Request parameter types and address-range validation.

use vstd::prelude::*;
use crate::error::{InvalidRange, InvalidRequest};

verus! {

/// Maximum count for a read-coils or read-discrete-inputs request.
pub const MAX_READ_BITS_COUNT: u16 = 2000;

/// Maximum count for a read-holding-registers or read-input-registers request.
pub const MAX_READ_REGISTERS_COUNT: u16 = 125;

/// Maximum count for a write-multiple-coils request.
pub const MAX_WRITE_COILS_COUNT: u16 = 1968;

/// Maximum count for a write-multiple-registers request.
pub const MAX_WRITE_REGISTERS_COUNT: u16 = 123;

/// The 8-bit identifier of the target device behind the TCP endpoint.
#[derive(Clone, Copy, Debug, PartialEq, Eq, Structural)]
pub struct UnitId {
    /// The raw unit id byte.
    pub value: u8,
}

impl UnitId {
    /// Wrap a raw unit id byte.
    pub fn new(value: u8) -> (r: Self)
        ensures
            r.value == value,
    {
        UnitId { value }
    }
}

/// A contiguous range of Modbus addresses: `start, start + 1, ..., start + count - 1`.
#[derive(Clone, Copy, Debug, PartialEq, Eq, Structural)]
pub struct AddressRange {
    /// The first address of the range.
    pub start: u16,
    /// The number of addresses in the range.
    pub count: u16,
}

/// A range is valid for a function code with count cap `cap` exactly when its
/// count is positive, it stays inside the 16-bit address space, and the count
/// does not exceed the cap.
pub open spec fn spec_range_valid(start: u16, count: u16, cap: u16) -> bool {
    &&& count > 0
    &&& start + count <= 65536
    &&& count <= cap
}

/// What validating a range returns, check by check: a count of zero, then an
/// overflow of the address space, then the per-function-code cap.
pub open spec fn spec_validate_range(start: u16, count: u16, cap: u16) -> Result<
    AddressRange,
    InvalidRange,
> {
    if count == 0 {
        Err(InvalidRange::CountOfZero)
    } else if start + count > 65536 {
        Err(InvalidRange::AddressOverflow(start, count))
    } else if count > cap {
        Err(InvalidRange::CountTooLargeForType(count, cap))
    } else {
        Ok(AddressRange { start, count })
    }
}

impl AddressRange {
    /// Build a range from its two fields without validating it.
    pub fn new(start: u16, count: u16) -> (r: Self)
        ensures
            r.start == start,
            r.count == count,
    {
        AddressRange { start, count }
    }

    /// Validate the range against a per-function-code count cap.
    ///
    /// Accepts exactly when `count > 0`, `start + count <= 2^16` and
    /// `count <= cap`; otherwise reports the first failing check.
    pub fn validate(self, cap: u16) -> (r: Result<Self, InvalidRange>)
        ensures
            r == spec_validate_range(self.start, self.count, cap),
            r is Ok <==> spec_range_valid(self.start, self.count, cap),
    {
        if self.count == 0 {
            Err(InvalidRange::CountOfZero)
        } else if (self.start as u32) + (self.count as u32) > 65536 {
            Err(InvalidRange::AddressOverflow(self.start, self.count))
        } else if self.count > cap {
            Err(InvalidRange::CountTooLargeForType(self.count, cap))
        } else {
            Ok(self)
        }
    }

    /// Validate the range for a read-coils or read-discrete-inputs request.
    pub fn of_read_bits(self) -> (r: Result<Self, InvalidRange>)
        ensures
            r == spec_validate_range(self.start, self.count, MAX_READ_BITS_COUNT),
            r is Ok <==> spec_range_valid(self.start, self.count, MAX_READ_BITS_COUNT),
    {
        self.validate(MAX_READ_BITS_COUNT)
    }

    /// Validate the range for a read-holding-registers or read-input-registers request.
    pub fn of_read_registers(self) -> (r: Result<Self, InvalidRange>)
        ensures
            r == spec_validate_range(self.start, self.count, MAX_READ_REGISTERS_COUNT),
            r is Ok <==> spec_range_valid(self.start, self.count, MAX_READ_REGISTERS_COUNT),
    {
        self.validate(MAX_READ_REGISTERS_COUNT)
    }
}

/// A value paired with the address it was read from or is written to.
#[derive(Clone, Copy, Debug, PartialEq, Eq, Structural)]
pub struct Indexed<T> {
    /// The address of the value.
    pub index: u16,
    /// The value itself.
    pub value: T,
}

impl<T> Indexed<T> {
    /// Pair a value with its address.
    pub fn new(index: u16, value: T) -> (r: Self)
        ensures
            r.index == index,
            r.value == value,
    {
        Indexed { index, value }
    }
}

/// The payload of a write-multiple-coils or write-multiple-registers request:
/// consecutive values starting at `range.start`.
#[derive(Clone, Debug)]
pub struct WriteMultiple<T> {
    /// The addresses written, with `range.count == values.len()`.
    pub range: AddressRange,
    /// The values, one per address of the range.
    pub values: Vec<T>,
}

impl<T> WriteMultiple<T> {
    /// The count always mirrors the number of values.
    pub open spec fn wf(self) -> bool {
        &&& self.range.count == self.values@.len()
        &&& self.range.count > 0
        &&& self.range.start + self.range.count <= 65536
    }

    /// Build a write request from the first address and the values to write.
    ///
    /// Rejects an empty value list, one longer than a u16 can count, and one
    /// that would run past the end of the 16-bit address space.
    pub fn from(start: u16, values: Vec<T>) -> (r: Result<Self, InvalidRequest>)
        ensures
            r is Ok <==> (0 < values@.len() && values@.len() <= 65535 && start + values@.len()
                <= 65536),
            r is Ok ==> ({
                &&& r.unwrap().range.start == start
                &&& r.unwrap().range.count == values@.len()
                &&& r.unwrap().values == values
                &&& r.unwrap().wf()
            }),
            values@.len() > 65535 ==> r == Err::<Self, InvalidRequest>(
                InvalidRequest::CountTooBigForU16(values@.len() as usize),
            ),
            values@.len() == 0 ==> r == Err::<Self, InvalidRequest>(
                InvalidRequest::BadRange(InvalidRange::CountOfZero),
            ),
            0 < values@.len() <= 65535 && start + values@.len() > 65536 ==> r == Err::<
                Self,
                InvalidRequest,
            >(
                InvalidRequest::BadRange(
                    InvalidRange::AddressOverflow(start, values@.len() as u16),
                ),
            ),
    {
        if values.len() == 0 {
            return Err(InvalidRequest::BadRange(InvalidRange::CountOfZero));
        }
        if values.len() > 65535 {
            return Err(InvalidRequest::CountTooBigForU16(values.len()));
        }
        let count: u16 = values.len() as u16;
        if (start as u32) + (count as u32) > 65536 {
            return Err(InvalidRequest::BadRange(InvalidRange::AddressOverflow(start, count)));
        }
        Ok(WriteMultiple { range: AddressRange { start, count }, values })
    }
}

} // verus!
