use msr_driver::device::{dispatch_device, Device, Dispatch, IRP_MJ_CLOSE, IRP_MJ_CREATE, IRP_MJ_DEVICE_CONTROL};
use msr_driver::driver::Driver;
use msr_driver::error::{Error, STATUS_NOT_IMPLEMENTED, STATUS_SUCCESS};
use msr_driver::io::{IoRequest, IoStatusBlock};
use msr_driver::msr::{combine_msr_halves, ioctl_read_msr, ioctl_write_msr, read_msr_request, RegisterValue};
use msr_driver::symbolic_link::SymbolicLink;
use msr_driver::{DEVICE_NAME, DOS_DEVICE_NAME, FILE_DEVICE_SECURE_OPEN, FILE_DEVICE_UNKNOWN, READ_MSR_IO_CONTROL_CODE, WRITE_MSR_IO_CONTROL_CODE};

#[test]
fn control_codes_have_their_values() {
    assert_eq!(READ_MSR_IO_CONTROL_CODE, 0x222084);
    assert_eq!(WRITE_MSR_IO_CONTROL_CODE, 0x222088);
}

#[test]
fn open_and_close_succeed() {
    assert_eq!(dispatch_device(IRP_MJ_CREATE, 0), Dispatch::Complete(Ok(0)));
    assert_eq!(dispatch_device(IRP_MJ_CLOSE, READ_MSR_IO_CONTROL_CODE), Dispatch::Complete(Ok(0)));
}

#[test]
fn register_requests_go_to_handlers() {
    assert_eq!(dispatch_device(IRP_MJ_DEVICE_CONTROL, READ_MSR_IO_CONTROL_CODE), Dispatch::ReadMsr);
    assert_eq!(dispatch_device(IRP_MJ_DEVICE_CONTROL, WRITE_MSR_IO_CONTROL_CODE), Dispatch::WriteMsr);
}

#[test]
fn other_requests_are_not_implemented() {
    let ni = Dispatch::Complete(Err(Error::NOT_IMPLEMENTED()));
    assert_eq!(dispatch_device(IRP_MJ_DEVICE_CONTROL, 0x222080), ni);
    assert_eq!(dispatch_device(0x03, READ_MSR_IO_CONTROL_CODE), ni);
    assert_eq!(dispatch_device(0x1b, 0), ni);
}

#[test]
fn completion_status_blocks() {
    let r = IoRequest::from_raw(0x1000);
    assert_eq!(r.irp(), 0x1000);
    assert_eq!(r.complete(Ok(8)), IoStatusBlock { information: 8, status: STATUS_SUCCESS });
    assert_eq!(
        r.complete(Err(Error::NOT_IMPLEMENTED())),
        IoStatusBlock { information: 0, status: STATUS_NOT_IMPLEMENTED }
    );
}

#[test]
fn msr_halves_combine() {
    assert_eq!(combine_msr_halves(0x1, 0x2), 0x1_0000_0002);
    assert_eq!(combine_msr_halves(0xFFFF_FFFF, 0xFFFF_FFFF), u64::MAX);
    assert_eq!(combine_msr_halves(0, 0xDEAD_BEEF), 0xDEAD_BEEF);
}

#[test]
fn read_request_names_register() {
    assert_eq!(read_msr_request(&[0x10, 0x00, 0x00, 0xC0, 0xAA]), 0xC000_0010);
}

#[test]
fn read_reply_is_little_endian() {
    let mut buf = [0xEEu8; 10];
    let n = ioctl_read_msr(&mut buf, 0x0102_0304_0506_0708);
    assert_eq!(n, 8);
    assert_eq!(buf, [0x08, 0x07, 0x06, 0x05, 0x04, 0x03, 0x02, 0x01, 0xEE, 0xEE]);
}

#[test]
fn write_request_is_parsed() {
    let buf = [0x80, 0x00, 0x00, 0xC0, 0x01, 0x02, 0x03, 0x04, 0x05, 0x06, 0x07, 0x08];
    let (rv, n) = ioctl_write_msr(&buf);
    assert_eq!(n, 0);
    assert_eq!(rv, RegisterValue { register: 0xC000_0080, value: [0x0403_0201, 0x0807_0605] });
}

#[test]
fn write_then_read_gives_value_back() {
    let request = [0x80, 0x00, 0x00, 0xC0, 0x11, 0x22, 0x33, 0x44, 0x55, 0x66, 0x77, 0x88];
    let (rv, _) = ioctl_write_msr(&request);
    let value = combine_msr_halves(rv.value[1], rv.value[0]);
    let mut reply = [0u8; 8];
    ioctl_read_msr(&mut reply, value);
    assert_eq!(&reply[..], &request[4..12]);
}

#[test]
fn device_close_deletes_only_real_objects() {
    assert!(!Device::from_raw(0).close());
    let d = Device::from_raw(0xFFFF_8000_1234_0000);
    assert!(d.close());
    assert_eq!(d.raw(), 0xFFFF_8000_1234_0000);
}

#[test]
fn create_device_call_arguments() {
    let driver = Driver::from_raw(0x5000);
    let call = driver.create_device(DEVICE_NAME, FILE_DEVICE_UNKNOWN, FILE_DEVICE_SECURE_OPEN);
    assert_eq!(call.driver, 0x5000);
    assert_eq!(call.device_extension_size, 0);
    assert_eq!(call.device_type, 0x22);
    assert_eq!(call.device_characteristics, 0x100);
    assert!(!call.exclusive);
    assert_eq!(call.device_name.length, 50);
}

#[test]
fn create_device_outcome() {
    match Driver::finish_create_device(STATUS_SUCCESS, 0x7000) {
        Ok(d) => assert_eq!(d.raw(), 0x7000),
        Err(_) => panic!("success must give a device"),
    }
    match Driver::finish_create_device(STATUS_NOT_IMPLEMENTED, 0x7000) {
        Ok(_) => panic!("a failure status must give an error"),
        Err(e) => assert_eq!(e.to_nt_status(), STATUS_NOT_IMPLEMENTED),
    }
}

#[test]
fn symbolic_link_names() {
    let (link, name, target) = SymbolicLink::new(DOS_DEVICE_NAME, DEVICE_NAME).unwrap();
    assert_eq!(name.length, 58);
    assert_eq!(target.length, 50);
    let closed = link.close();
    assert_eq!(closed.buffer, name.buffer);
    assert_eq!(closed.length, name.length);
    assert_eq!(closed.maximum_length, name.maximum_length);
}
