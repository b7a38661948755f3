//! Control-request identifiers.
//!
//! A control code packs four fields into 32 bits: the device type in bits
//! 16..32, the required access in bits 14..16, the function number in bits
//! 2..14 and the transfer method in bits 0..2.

use vstd::prelude::*;

verus! {

/// Device type of a device that belongs to no predefined class.
pub const FILE_DEVICE_UNKNOWN: u32 = 22;

/// Access value that lets any caller issue the request.
pub const FILE_ANY_ACCESS: u32 = 0;

/// Transfer method in which the I/O manager copies through a system buffer.
pub const METHOD_BUFFERED: u32 = 0;

/// Function number of the counter query.
pub const FUNCTION_GET_COUNTER: u32 = 0x800;

/// The one control code the service recognizes: the counter query.
pub const IOCTL_GET_COUNTER: u32 = 0x0016_2000;

/// The packed code as a bit expression over 32-bit words.
pub open spec fn ctl_code_spec(device_type: u32, function: u32, method: u32, access: u32) -> u32 {
    (device_type << 16) | (access << 14) | (function << 2) | method
}

/// Whether each field fits the bits reserved for it.
pub open spec fn fields_in_range(device_type: u32, function: u32, method: u32, access: u32) -> bool {
    device_type < 0x1_0000 && function < 0x1000 && method < 4 && access < 4
}

/// Packs the four fields of a control code.
///
/// Bits of a field that do not fit its position are shifted out or overlap
/// the neighbouring field, exactly as the bit expression says.  For fields
/// that fit, the code is the positional sum.
pub fn ctl_code(device_type: u32, function: u32, method: u32, access: u32) -> (code: u32)
    ensures
        code == ctl_code_spec(device_type, function, method, access),
        fields_in_range(device_type, function, method, access) ==> code == device_type * 0x1_0000
            + access * 0x4000 + function * 4 + method,
{
    proof {
        lemma_ctl_code_is_positional(device_type, function, method, access);
    }
    (device_type << 16) | (access << 14) | (function << 2) | method
}

/// For fields that fit their positions, packing is the positional sum.
pub proof fn lemma_ctl_code_is_positional(device_type: u32, function: u32, method: u32, access: u32)
    ensures
        fields_in_range(device_type, function, method, access) ==> ctl_code_spec(
            device_type,
            function,
            method,
            access,
        ) == device_type * 0x1_0000 + access * 0x4000 + function * 4 + method,
{
    assert(device_type < 0x1_0000 && function < 0x1000 && method < 4 && access < 4 ==> ((device_type
        << 16) | (access << 14) | (function << 2) | method) == device_type * 0x1_0000 + access
        * 0x4000 + function * 4 + method) by (bit_vector);
}

/// The recognized code is the packing of an unknown device class, any
/// access, buffered transfer and the counter-query function.
pub proof fn lemma_get_counter_code()
    ensures
        IOCTL_GET_COUNTER == ctl_code_spec(
            FILE_DEVICE_UNKNOWN,
            FUNCTION_GET_COUNTER,
            METHOD_BUFFERED,
            FILE_ANY_ACCESS,
        ),
{
    assert(0x0016_2000u32 == (22u32 << 16) | (0u32 << 14) | (0x800u32 << 2) | 0u32) by (bit_vector);
}

} // verus!
