use msr_driver::device::{complete_read_msr, complete_write_msr};
use msr_driver::error::{Error, STATUS_NOT_IMPLEMENTED, STATUS_SUCCESS};
use msr_driver::io::{IoRequest, IoStatusBlock};
use msr_driver::kernel_module::{module_init_step, InitAction, InitEvent};
use msr_driver::msr::RegisterValue;
use msr_driver::utils::version_info;
use msr_driver::{DEVICE_NAME, DOS_DEVICE_NAME};

#[test]
fn version_build_only_on_success() {
    assert_eq!(version_info(STATUS_SUCCESS, 19045), Some(19045));
    assert_eq!(version_info(STATUS_NOT_IMPLEMENTED, 19045), None);
    assert_eq!(version_info(-1, 0), None);
}

#[test]
fn read_request_completes_with_eight_bytes() {
    let request = IoRequest::from_raw(0x4000);
    let mut buf = [0x10u8, 0, 0, 0xC0, 0, 0, 0, 0, 0x99];
    let block = complete_read_msr(&request, &mut buf, 0xAABB_CCDD_0011_2233);
    assert_eq!(block, IoStatusBlock { information: 8, status: STATUS_SUCCESS });
    assert_eq!(buf, [0x33, 0x22, 0x11, 0x00, 0xDD, 0xCC, 0xBB, 0xAA, 0x99]);
}

#[test]
fn write_request_completes_with_no_bytes() {
    let request = IoRequest::from_raw(0x4000);
    let buf = [0x1B, 0x00, 0x00, 0x00, 0x00, 0x09, 0xE0, 0xFE, 0x00, 0x00, 0x00, 0x00];
    let (write, block) = complete_write_msr(&request, &buf);
    assert_eq!(write, RegisterValue { register: 0x1B, value: [0xFEE0_0900, 0] });
    assert_eq!(block, IoStatusBlock { information: 0, status: STATUS_SUCCESS });
}

#[test]
fn module_init_runs_in_order() {
    assert_eq!(module_init_step(InitEvent::Started), InitAction::SelectAllocator);
    assert_eq!(
        module_init_step(InitEvent::AllocatorSelected),
        InitAction::CreateDevice { name: DEVICE_NAME, device_type: 0x22, characteristics: 0x100 }
    );
    assert_eq!(
        module_init_step(InitEvent::DeviceCreated(Ok(()))),
        InitAction::CreateSymbolicLink { name: DOS_DEVICE_NAME, target: DEVICE_NAME }
    );
    assert_eq!(module_init_step(InitEvent::SymbolicLinkCreated(Ok(()))), InitAction::Finish(Ok(())));
}

#[test]
fn module_init_stops_at_first_failure() {
    let e = Error::from_nt_status(-1073741823);
    assert_eq!(module_init_step(InitEvent::DeviceCreated(Err(e))), InitAction::Finish(Err(e)));
    assert_eq!(
        module_init_step(InitEvent::SymbolicLinkCreated(Err(Error::NOT_IMPLEMENTED()))),
        InitAction::Finish(Err(Error::NOT_IMPLEMENTED()))
    );
}
