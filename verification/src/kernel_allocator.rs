use vstd::prelude::*;

verus! {

/// The first Windows build (version 2004) that offers `ExAllocatePool2`.
pub const WINDOWS_2004_BUILD: u32 = 19041;

/// `POOL_FLAG_NON_PAGED`.
pub const POOL_FLAG_NON_PAGED: u64 = 0x40;

/// `POOL_FLAG_USE_QUOTA`.
pub const POOL_FLAG_USE_QUOTA: u64 = 0x01;

/// The pool flags of an `ExAllocatePool2` allocation: non-paged, charged to
/// the quota.
pub const POOL_CONFIGURATION: u64 = POOL_FLAG_NON_PAGED | POOL_FLAG_USE_QUOTA;

/// The pool type `NonPagedPool`.
pub const NON_PAGED_POOL: u64 = 0;

/// The pool tag of every allocation: 'KMRS'.
pub const KMRS_TAG: u32 = 0x4B4D5253;

/// The kernel routine that an allocation goes through.
#[derive(Clone, Copy, Debug, PartialEq, Eq, Structural)]
pub enum AllocationRoutine {
    /// `ExAllocatePoolWithTag(NonPagedPool, size, tag)`.
    PoolWithTag,
    /// `ExAllocatePool2(POOL_CONFIGURATION, size, tag)`.
    Pool2,
}

/// One pool allocation call: the routine, its pool type or flags, the size
/// and the tag.
#[derive(Clone, Copy, Debug, PartialEq, Eq, Structural)]
pub struct PoolRequest {
    pub routine: AllocationRoutine,
    pub flags: u64,
    pub number_of_bytes: usize,
    pub tag: u32,
}

/// The pool call that `routine` makes for `size` bytes.
pub open spec fn pool_request_of(routine: AllocationRoutine, size: usize) -> PoolRequest {
    PoolRequest {
        routine,
        flags: match routine {
            AllocationRoutine::PoolWithTag => NON_PAGED_POOL,
            AllocationRoutine::Pool2 => POOL_CONFIGURATION,
        },
        number_of_bytes: size,
        tag: KMRS_TAG,
    }
}

/// An allocator that allocates through one routine.
pub struct MutableAllocator {
    allocation_function: AllocationRoutine,
}

impl View for MutableAllocator {
    type V = AllocationRoutine;

    closed spec fn view(&self) -> AllocationRoutine {
        self.allocation_function
    }
}

impl MutableAllocator {
    /// Points this allocator, which the call consumes, at another routine.
    /// The allocator is dropped at the end of the call, so no allocation
    /// ever goes through the new routine.
    pub fn change_allocator(self, new_allocation_function: AllocationRoutine) {
        let mut allocator = self;
        allocator.allocation_function = new_allocation_function;
    }

    /// The pool call that allocates `layout_size` bytes through this
    /// allocator's routine.
    pub fn allocate(&self, layout_size: usize) -> (request: PoolRequest)
        ensures
            request == pool_request_of(self@, layout_size),
            request.routine == self@,
            request.number_of_bytes == layout_size,
            request.tag == 0x4B4D5253,
            request.flags == (if self@ == AllocationRoutine::Pool2 { 0x41u64 } else { 0u64 }),
    {
        proof {
            lemma_pool_request_fields(self@, layout_size);
        }
        let flags: u64 = match self.allocation_function {
            AllocationRoutine::PoolWithTag => NON_PAGED_POOL,
            AllocationRoutine::Pool2 => POOL_CONFIGURATION,
        };
        PoolRequest {
            routine: self.allocation_function,
            flags,
            number_of_bytes: layout_size,
            tag: KMRS_TAG,
        }
    }
}

/// The global allocator: each allocation asks its provider for an allocator
/// and allocates through it. The provider builds a fresh allocator on the
/// tagged non-paged pool each time.
pub struct KernelAllocator {}

impl KernelAllocator {
    /// The global allocator.
    pub fn new() -> (a: KernelAllocator) {
        KernelAllocator {  }
    }

    /// A fresh allocator on the tagged non-paged pool.
    fn allocator_provider(&self) -> (m: MutableAllocator)
        ensures
            m@ == AllocationRoutine::PoolWithTag,
    {
        MutableAllocator { allocation_function: AllocationRoutine::PoolWithTag }
    }

    /// Changes the routine of an allocator that the provider builds for this
    /// call alone: later allocations are not affected.
    pub fn change_allocator(&self, new_allocation_function: AllocationRoutine) {
        self.allocator_provider().change_allocator(new_allocation_function);
    }

    /// The pool call of an allocation of `size` bytes: always
    /// `ExAllocatePoolWithTag(NonPagedPool, size, 'KMRS')`, whatever
    /// `change_allocator` was called with.
    pub fn alloc_request(&self, size: usize) -> (request: PoolRequest)
        ensures
            request == pool_request_of(AllocationRoutine::PoolWithTag, size),
            request.routine == AllocationRoutine::PoolWithTag,
            request.flags == 0,
            request.number_of_bytes == size,
            request.tag == 0x4B4D5253,
    {
        self.allocator_provider().allocate(size)
    }
}

/// The routine that `auto_select_allocator` picks for a Windows build: the
/// newer pool routine from Windows 2004 on, else none (the tagged pool stays).
pub open spec fn selected_routine(build_number: Option<u32>) -> Option<AllocationRoutine> {
    match build_number {
        Some(build) if build >= WINDOWS_2004_BUILD => Some(AllocationRoutine::Pool2),
        _ => None,
    }
}

/// Picks the allocation routine for the running Windows build (`None` when
/// the build could not be read) and hands it to `change_allocator`; returns
/// the routine it picked, if any.
pub fn auto_select_allocator(allocator: &KernelAllocator, build_number: Option<u32>) -> (picked:
    Option<AllocationRoutine>)
    ensures
        picked == selected_routine(build_number),
        build_number matches Some(b) && b >= 19041 ==> picked == Some(AllocationRoutine::Pool2),
        build_number matches Some(b) && b < 19041 ==> picked is None,
        build_number is None ==> picked is None,
{
    proof {
        lemma_selected_routine(build_number);
    }
    match build_number {
        Some(build) if build >= WINDOWS_2004_BUILD => {
            allocator.change_allocator(AllocationRoutine::Pool2);
            Some(AllocationRoutine::Pool2)
        },
        _ => None,
    }
}

/// A pool call asks for exactly the requested number of bytes under the tag
/// 'KMRS'; the tagged routine takes the pool type `NonPagedPool` (0), the newer
/// routine the flags non-paged and quota-charged (0x41).
pub proof fn lemma_pool_request_fields(routine: AllocationRoutine, size: usize)
    ensures
        pool_request_of(routine, size).routine == routine,
        pool_request_of(routine, size).number_of_bytes == size,
        pool_request_of(routine, size).tag == 0x4B4D5253,
        routine == AllocationRoutine::PoolWithTag ==> pool_request_of(routine, size).flags == 0,
        routine == AllocationRoutine::Pool2 ==> pool_request_of(routine, size).flags == 0x41,
{
    assert(0x40u64 | 0x01u64 == 0x41u64) by (bit_vector);
}

/// Every build from 19041 (Windows 10 2004) on picks the newer pool routine;
/// every earlier build, and an unknown build, picks none.
pub proof fn lemma_selected_routine(build_number: Option<u32>)
    ensures
        build_number matches Some(b) && b >= 19041 ==> selected_routine(build_number) == Some(
            AllocationRoutine::Pool2,
        ),
        build_number matches Some(b) && b < 19041 ==> selected_routine(build_number) is None,
        build_number is None ==> selected_routine(build_number) is None,
{
}

/// The layout of an allocation that could not be served.
#[derive(Clone, Copy, Debug, PartialEq, Eq, Structural)]
pub struct AllocationFailure {
    pub size: usize,
    pub align: usize,
}

/// The report of an allocation error for a layout of `size` bytes aligned to
/// `align`, which the driver then panics with.
pub fn alloc_error(size: usize, align: usize) -> (failure: AllocationFailure)
    ensures
        failure == (AllocationFailure { size, align }),
{
    AllocationFailure { size, align }
}

} // verus!
