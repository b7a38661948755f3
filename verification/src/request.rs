//! Requests, their outcomes and the wire form of the counter.

use vstd::prelude::*;

verus! {

/// Number of bytes a counter query writes.
pub const COUNTER_SIZE: u32 = 4;

/// Outcome of a request.
#[derive(Clone, Copy, PartialEq, Eq, Debug, Structural)]
pub enum Status {
    /// The request was carried out.
    Success,
    /// The caller's output buffer holds fewer bytes than the answer needs.
    BufferTooSmall,
    /// The output buffer is large enough but cannot be written.
    InvalidOutput,
    /// The request is not one the service knows.
    NotImplemented,
}

/// How a request is completed: its status, the number of bytes handed back
/// and the bytes themselves.
///
/// A dispatch routine returns one completion for each request it is given,
/// so every request is completed once.
#[derive(Clone, Copy, PartialEq, Eq, Debug)]
pub struct Completion {
    pub status: Status,
    pub information: u64,
    pub output: Option<[u8; 4]>,
}

/// Numeric status of a successful operation.
pub const STATUS_SUCCESS: i32 = 0;

/// Numeric status of an operation that failed for no more specific reason.
pub const STATUS_UNSUCCESSFUL: i32 = -1_073_741_823;

/// Numeric status of a request that is not implemented.
pub const STATUS_NOT_IMPLEMENTED: i32 = -1_073_741_822;

/// Numeric status of a request whose buffer is too small.
pub const STATUS_BUFFER_TOO_SMALL: i32 = -1_073_741_789;

impl Status {
    /// The numeric status the host reports for this outcome.
    pub open spec fn code_of(self) -> i32 {
        match self {
            Status::Success => STATUS_SUCCESS,
            Status::BufferTooSmall => STATUS_BUFFER_TOO_SMALL,
            Status::InvalidOutput => STATUS_UNSUCCESSFUL,
            Status::NotImplemented => STATUS_NOT_IMPLEMENTED,
        }
    }

    /// The numeric status the host reports for this outcome.
    pub fn code(self) -> (code: i32)
        ensures
            code == self.code_of(),
            (code == STATUS_SUCCESS) == (self == Status::Success),
    {
        match self {
            Status::Success => STATUS_SUCCESS,
            Status::BufferTooSmall => STATUS_BUFFER_TOO_SMALL,
            Status::InvalidOutput => STATUS_UNSUCCESSFUL,
            Status::NotImplemented => STATUS_NOT_IMPLEMENTED,
        }
    }
}

/// The four bytes of `value`, least significant first.
pub open spec fn le_bytes(value: u32) -> [u8; 4] {
    [
        (value % 0x100) as u8,
        ((value / 0x100) % 0x100) as u8,
        ((value / 0x1_0000) % 0x100) as u8,
        (value / 0x100_0000) as u8,
    ]
}

/// The value whose little-endian form is `bytes`.
pub open spec fn from_le_bytes(bytes: [u8; 4]) -> u32 {
    (bytes[0] + bytes[1] * 0x100 + bytes[2] * 0x1_0000 + bytes[3] * 0x100_0000) as u32
}

/// Encodes a counter value as the client receives it.
pub fn counter_to_le_bytes(value: u32) -> (bytes: [u8; 4])
    ensures
        bytes == le_bytes(value),
{
    let b0: u8 = (value & 0xff) as u8;
    let b1: u8 = ((value >> 8) & 0xff) as u8;
    let b2: u8 = ((value >> 16) & 0xff) as u8;
    let b3: u8 = ((value >> 24) & 0xff) as u8;
    proof {
        assert((value & 0xff) == value % 0x100) by (bit_vector);
        assert(((value >> 8) & 0xff) == (value / 0x100) % 0x100) by (bit_vector);
        assert(((value >> 16) & 0xff) == (value / 0x1_0000) % 0x100) by (bit_vector);
        assert(((value >> 24) & 0xff) == value / 0x100_0000) by (bit_vector);
    }
    let bytes: [u8; 4] = [b0, b1, b2, b3];
    assert(bytes@ =~= le_bytes(value)@);
    bytes
}

/// Decodes a counter value from the four bytes a query wrote.
pub fn counter_from_le_bytes(bytes: [u8; 4]) -> (value: u32)
    ensures
        value == from_le_bytes(bytes),
{
    let b0: u32 = bytes[0] as u32;
    let b1: u32 = bytes[1] as u32;
    let b2: u32 = bytes[2] as u32;
    let b3: u32 = bytes[3] as u32;
    b0 + b1 * 0x100 + b2 * 0x1_0000 + b3 * 0x100_0000
}

/// Decoding what was encoded gives the value back, and encoding what was
/// decoded gives the bytes back.
pub proof fn lemma_le_bytes_round_trip(value: u32, bytes: [u8; 4])
    ensures
        from_le_bytes(le_bytes(value)) == value,
        le_bytes(from_le_bytes(bytes)) == bytes,
{
    assert(le_bytes(from_le_bytes(bytes))@ =~= bytes@);
}

} // verus!
