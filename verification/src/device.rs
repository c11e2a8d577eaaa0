use vstd::prelude::*;
use crate::error::{Error, STATUS_NOT_IMPLEMENTED, STATUS_SUCCESS};
use crate::io::{IoRequest, IoStatusBlock};
use crate::msr::{ioctl_read_msr, ioctl_write_msr, le_bytes_u64, register_value_of, RegisterValue};
use crate::{READ_MSR_IO_CONTROL_CODE, WRITE_MSR_IO_CONTROL_CODE};

verus! {

/// Major function code of a request that opens the device.
pub const IRP_MJ_CREATE: u8 = 0x00;

/// Major function code of a request that closes the device.
pub const IRP_MJ_CLOSE: u8 = 0x02;

/// Major function code of a device I/O control request.
pub const IRP_MJ_DEVICE_CONTROL: u8 = 0x0e;

/// A device object, known by its address (0 for none).
pub struct Device {
    raw: usize,
}

impl View for Device {
    type V = usize;

    closed spec fn view(&self) -> usize {
        self.raw
    }
}

impl Device {
    /// Takes hold of the device object at address `raw`.
    pub fn from_raw(raw: usize) -> (d: Device)
        ensures
            d@ == raw,
    {
        Device { raw }
    }

    /// The address of the device object.
    pub fn raw(&self) -> (raw: usize)
        ensures
            raw == self@,
    {
        self.raw
    }

    /// Whether closing the device deletes a device object: only when the
    /// device holds one (a non-null address).
    pub fn close(&self) -> (delete: bool)
        ensures
            delete == (self@ != 0),
    {
        self.raw != 0
    }
}

/// How the dispatch routine answers a request.
#[derive(Debug, PartialEq, Eq)]
pub enum Dispatch {
    /// Complete the request at once with this result.
    Complete(Result<usize, Error>),
    /// Read the register that the request buffer names, then answer it.
    ReadMsr,
    /// Write the register value that the request buffer holds, then answer it.
    WriteMsr,
}

/// The dispatch decision for a request with this major function and, for a
/// device control request, this control code. Opening and closing succeed
/// with no bytes; the two register control codes go to the register
/// handlers; anything else is answered `STATUS_NOT_IMPLEMENTED`.
pub fn dispatch_device(major_function: u8, io_control_code: u32) -> (d: Dispatch)
    ensures
        major_function == IRP_MJ_CREATE || major_function == IRP_MJ_CLOSE ==> d == Dispatch::Complete(Ok(0)),
        major_function == IRP_MJ_DEVICE_CONTROL && io_control_code == READ_MSR_IO_CONTROL_CODE ==> d == Dispatch::ReadMsr,
        major_function == IRP_MJ_DEVICE_CONTROL && io_control_code == WRITE_MSR_IO_CONTROL_CODE ==> d == Dispatch::WriteMsr,
        !(major_function == IRP_MJ_CREATE || major_function == IRP_MJ_CLOSE || (major_function
            == IRP_MJ_DEVICE_CONTROL && (io_control_code == READ_MSR_IO_CONTROL_CODE
            || io_control_code == WRITE_MSR_IO_CONTROL_CODE))) ==> (d matches Dispatch::Complete(
            Err(e)) && e@ == STATUS_NOT_IMPLEMENTED),
{
    proof {
        crate::lemma_msr_control_codes();
    }
    if major_function == IRP_MJ_CREATE {
        Dispatch::Complete(Ok(0))
    } else if major_function == IRP_MJ_CLOSE {
        Dispatch::Complete(Ok(0))
    } else if major_function == IRP_MJ_DEVICE_CONTROL {
        if io_control_code == READ_MSR_IO_CONTROL_CODE {
            Dispatch::ReadMsr
        } else if io_control_code == WRITE_MSR_IO_CONTROL_CODE {
            Dispatch::WriteMsr
        } else {
            Dispatch::Complete(Err(Error::NOT_IMPLEMENTED()))
        }
    } else {
        Dispatch::Complete(Err(Error::NOT_IMPLEMENTED()))
    }
}

/// Answers a read request once the register's value is known: the value goes
/// into the first eight bytes of the request buffer, little-endian, and the
/// request completes with success and eight bytes.
pub fn complete_read_msr(request: &IoRequest, buffer: &mut [u8], value: u64) -> (block: IoStatusBlock)
    requires
        old(buffer)@.len() >= 8,
    ensures
        final(buffer)@ == le_bytes_u64(value) + old(buffer)@.skip(8),
        block == (IoStatusBlock { information: 8, status: STATUS_SUCCESS }),
{
    let information = ioctl_read_msr(buffer, value);
    request.complete(Ok(information))
}

/// Answers a write request: the register write that the request buffer holds,
/// and the completion of the request, with success and no bytes, once the
/// register has been written.
pub fn complete_write_msr(request: &IoRequest, buffer: &[u8]) -> (r: (RegisterValue, IoStatusBlock))
    requires
        buffer@.len() >= 12,
    ensures
        r.0 == register_value_of(buffer@),
        r.1 == (IoStatusBlock { information: 0, status: STATUS_SUCCESS }),
{
    let (write, information) = ioctl_write_msr(buffer);
    (write, request.complete(Ok(information)))
}

} // verus!
