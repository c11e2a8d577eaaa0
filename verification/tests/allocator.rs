use msr_driver::kernel_allocator::{
    alloc_error, auto_select_allocator, AllocationFailure, AllocationRoutine, KernelAllocator, PoolRequest,
    KMRS_TAG, POOL_CONFIGURATION,
};

#[test]
fn allocations_use_tagged_nonpaged_pool() {
    let a = KernelAllocator::new();
    assert_eq!(
        a.alloc_request(64),
        PoolRequest { routine: AllocationRoutine::PoolWithTag, flags: 0, number_of_bytes: 64, tag: 0x4B4D5253 }
    );
    assert_eq!(KMRS_TAG.to_be_bytes(), *b"KMRS");
    assert_eq!(POOL_CONFIGURATION, 0x41);
}

#[test]
fn change_allocator_leaves_later_allocations_alone() {
    let a = KernelAllocator::new();
    a.change_allocator(AllocationRoutine::Pool2);
    assert_eq!(a.alloc_request(16).routine, AllocationRoutine::PoolWithTag);
}

#[test]
fn allocator_selection_by_build() {
    let a = KernelAllocator::new();
    assert_eq!(auto_select_allocator(&a, Some(19041)), Some(AllocationRoutine::Pool2));
    assert_eq!(auto_select_allocator(&a, Some(22621)), Some(AllocationRoutine::Pool2));
    assert_eq!(auto_select_allocator(&a, Some(19040)), None);
    assert_eq!(auto_select_allocator(&a, None), None);
    assert_eq!(a.alloc_request(1).routine, AllocationRoutine::PoolWithTag);
}

#[test]
fn allocation_error_reports_layout() {
    assert_eq!(alloc_error(4096, 16), AllocationFailure { size: 4096, align: 16 });
}
