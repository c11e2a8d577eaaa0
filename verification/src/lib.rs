pub mod device;
pub mod driver;
pub mod error;
pub mod io;
pub mod kernel_allocator;
pub mod kernel_module;
pub mod msr;
pub mod symbolic_link;
pub mod utils;

use vstd::prelude::*;

verus! {

/// Device characteristic: the I/O manager applies the device's security
/// descriptor to opens of the device namespace.
pub const FILE_DEVICE_SECURE_OPEN: u32 = 0x0100;

/// The kernel name of the device.
pub const DEVICE_NAME: &'static str = "\\Device\\BestEverMsrDriver\0";

/// The name by which user mode opens the device.
pub const DOS_DEVICE_NAME: &'static str = "\\DosDevices\\BestEverMsrDriver\0";

/// Device type of a device that fits no predefined class.
pub const FILE_DEVICE_UNKNOWN: u32 = 0x22;

/// Transfer type: the I/O manager copies the request through a system buffer.
pub const METHOD_BUFFERED: u32 = 0;

/// Required access: any.
pub const FILE_ANY_ACCESS: u32 = 0;

/// The device type that the driver's control codes carry.
pub const IO_CONTROL_DEVICE_TYPE: u32 = FILE_DEVICE_UNKNOWN;

/// Control code of the request that reads a model-specific register.
pub const READ_MSR_IO_CONTROL_CODE: u32 = (IO_CONTROL_DEVICE_TYPE << 16) | (FILE_ANY_ACCESS << 14)
    | (0x821 << 2) | METHOD_BUFFERED;

/// Control code of the request that writes a model-specific register.
pub const WRITE_MSR_IO_CONTROL_CODE: u32 = (IO_CONTROL_DEVICE_TYPE << 16) | (FILE_ANY_ACCESS << 14)
    | (0x822 << 2) | METHOD_BUFFERED;

/// The layout of an I/O control code: device type in bits 16..32, required
/// access in bits 14..16, function in bits 2..14, transfer type in bits 0..2.
pub open spec fn ctl_code(device_type: u32, function: u32, method: u32, access: u32) -> u32 {
    (device_type << 16) | (access << 14) | (function << 2) | method
}

/// Every field of a control code can be read back from it, as long as each
/// field fits in its bits.
pub proof fn lemma_ctl_code_fields(device_type: u32, function: u32, method: u32, access: u32)
    requires
        device_type < 0x10000,
        function < 0x1000,
        method < 4,
        access < 4,
    ensures
        ctl_code(device_type, function, method, access) >> 16 == device_type,
        (ctl_code(device_type, function, method, access) >> 14) & 3 == access,
        (ctl_code(device_type, function, method, access) >> 2) & 0xFFF == function,
        ctl_code(device_type, function, method, access) & 3 == method,
{
    assert(((device_type << 16) | (access << 14) | (function << 2) | method) >> 16 == device_type
        && (((device_type << 16) | (access << 14) | (function << 2) | method) >> 14) & 3 == access
        && (((device_type << 16) | (access << 14) | (function << 2) | method) >> 2) & 0xFFF
        == function && ((device_type << 16) | (access << 14) | (function << 2) | method) & 3
        == method) by (bit_vector)
        requires
            device_type < 0x10000,
            function < 0x1000,
            method < 4,
            access < 4,
    ;
}

/// The two control codes of the driver: buffered, any access, functions 0x821
/// and 0x822 of the unknown device type; they are 0x222084 and 0x222088.
pub proof fn lemma_msr_control_codes()
    ensures
        READ_MSR_IO_CONTROL_CODE == ctl_code(FILE_DEVICE_UNKNOWN, 0x821, METHOD_BUFFERED, FILE_ANY_ACCESS),
        WRITE_MSR_IO_CONTROL_CODE == ctl_code(FILE_DEVICE_UNKNOWN, 0x822, METHOD_BUFFERED, FILE_ANY_ACCESS),
        READ_MSR_IO_CONTROL_CODE == 0x222084,
        WRITE_MSR_IO_CONTROL_CODE == 0x222088,
{
    assert(((0x22u32 << 16u32) | (0u32 << 14u32) | (0x821u32 << 2u32) | 0u32) == 0x222084u32) by (bit_vector);
    assert(((0x22u32 << 16u32) | (0u32 << 14u32) | (0x822u32 << 2u32) | 0u32) == 0x222088u32) by (bit_vector);
}

} // verus!
