use vstd::prelude::*;
use crate::device::Device;
use crate::error::{Error, IntoResult, STATUS_SUCCESS};
use crate::utils::{counted_string_of, create_unicode_string, UnicodeString};

verus! {

/// A driver object, known by its address.
pub struct Driver {
    raw: usize,
}

impl View for Driver {
    type V = usize;

    closed spec fn view(&self) -> usize {
        self.raw
    }
}

/// The arguments of the call that creates a device object.
pub struct CreateDeviceCall {
    pub driver: usize,
    pub device_extension_size: u32,
    pub device_name: UnicodeString,
    pub device_type: u32,
    pub device_characteristics: u32,
    pub exclusive: bool,
}

impl Driver {
    /// Takes hold of the driver object at address `raw`.
    pub fn from_raw(raw: usize) -> (d: Driver)
        ensures
            d@ == raw,
    {
        Driver { raw }
    }

    /// The address of the driver object.
    pub fn raw(&self) -> (raw: usize)
        ensures
            raw == self@,
    {
        self.raw
    }

    /// The creation call for a device named `name`: for this driver, with no
    /// device extension, the given type and characteristics, not exclusive.
    pub fn create_device(&self, name: &str, device_type: u32, device_flags: u32) -> (call:
        CreateDeviceCall)
        ensures
            call.driver == self@,
            call.device_extension_size == 0,
            counted_string_of(call.device_name, name@),
            call.device_type == device_type,
            call.device_characteristics == device_flags,
            !call.exclusive,
    {
        CreateDeviceCall {
            driver: self.raw,
            device_extension_size: 0,
            device_name: create_unicode_string(name),
            device_type,
            device_characteristics: device_flags,
            exclusive: false,
        }
    }

    /// The outcome of the creation call: the device at `device` when the call
    /// returned `STATUS_SUCCESS`, else the error that carries the status.
    pub fn finish_create_device(status: i32, device: usize) -> (r: Result<Device, Error>)
        ensures
            r is Ok <==> status == STATUS_SUCCESS,
            r matches Ok(d) ==> d@ == device,
            r matches Err(e) ==> e@ == status,
    {
        match status.into_result() {
            Ok(()) => Ok(Device::from_raw(device)),
            Err(e) => Err(e),
        }
    }
}

} // verus!
