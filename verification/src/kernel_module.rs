use vstd::prelude::*;
use crate::error::{Error, STATUS_SUCCESS};
use crate::{DEVICE_NAME, DOS_DEVICE_NAME, FILE_DEVICE_SECURE_OPEN, IO_CONTROL_DEVICE_TYPE};
use crate::utils::utf16_decode_lossy;

verus! {

/// `widestring::U16Str::to_string_lossy` (which is `String::from_utf16_lossy`
/// on the slice): decodes UTF-16, each invalid unit becoming U+FFFD. Trusted
/// to produce exactly `utf16_decode_lossy` of the units.
#[verifier::external_body]
fn utf16_to_string_lossy(units: &[u16]) -> (s: String)
    ensures
        s@ == utf16_decode_lossy(units@),
{
    widestring::U16Str::from_slice(units).to_string_lossy()
}

/// The registry path handed to the driver's entry point, as a `String`:
/// `units` are the code units before the path's NUL terminator.
pub fn registry_path_string(units: &[u16]) -> (s: String)
    ensures
        s@ == utf16_decode_lossy(units@),
{
    utf16_to_string_lossy(units)
}

/// The status that the driver's entry point returns for the outcome of the
/// module's initialization: success, or the status of the error.
pub fn driver_entry_status<T>(init: &Result<T, Error>) -> (status: i32)
    ensures
        init is Ok ==> status == STATUS_SUCCESS,
        init matches Err(e) ==> status == e@,
{
    match init {
        Ok(_) => STATUS_SUCCESS,
        Err(e) => e.to_nt_status(),
    }
}

/// What has just happened while the module initialises.
#[derive(Debug, PartialEq, Eq)]
pub enum InitEvent {
    /// Initialisation begins.
    Started,
    /// The pool allocator's routine has been picked.
    AllocatorSelected,
    /// The device was created, or its creation failed with this error.
    DeviceCreated(Result<(), Error>),
    /// The symbolic link was created, or its creation failed with this error.
    SymbolicLinkCreated(Result<(), Error>),
}

/// What the module does next while it initialises.
#[derive(Debug, PartialEq, Eq)]
pub enum InitAction {
    /// Pick the pool allocator's routine for the running Windows build.
    SelectAllocator,
    /// Create the device `name` of this type with these characteristics.
    CreateDevice { name: &'static str, device_type: u32, characteristics: u32 },
    /// Create the symbolic link `name` to `target`.
    CreateSymbolicLink { name: &'static str, target: &'static str },
    /// Initialisation is over, with this outcome.
    Finish(Result<(), Error>),
}

/// The module's initialisation, one step at a time: pick the allocator, then
/// create the device, then the symbolic link to it; the first creation that
/// fails ends the initialisation with its error, and success follows when
/// both were created.
pub fn module_init_step(event: InitEvent) -> (action: InitAction)
    ensures
        event == InitEvent::Started ==> action == InitAction::SelectAllocator,
        event == InitEvent::AllocatorSelected ==> action == (InitAction::CreateDevice {
            name: DEVICE_NAME,
            device_type: IO_CONTROL_DEVICE_TYPE,
            characteristics: FILE_DEVICE_SECURE_OPEN,
        }),
        event matches InitEvent::DeviceCreated(Ok(())) ==> action == (InitAction::CreateSymbolicLink {
            name: DOS_DEVICE_NAME,
            target: DEVICE_NAME,
        }),
        event matches InitEvent::SymbolicLinkCreated(Ok(())) ==> action == InitAction::Finish(Ok(())),
        event matches InitEvent::DeviceCreated(Err(e)) ==> action == InitAction::Finish(Err(e)),
        event matches InitEvent::SymbolicLinkCreated(Err(e)) ==> action == InitAction::Finish(Err(e)),
{
    match event {
        InitEvent::Started => InitAction::SelectAllocator,
        InitEvent::AllocatorSelected => InitAction::CreateDevice {
            name: DEVICE_NAME,
            device_type: IO_CONTROL_DEVICE_TYPE,
            characteristics: FILE_DEVICE_SECURE_OPEN,
        },
        InitEvent::DeviceCreated(Ok(())) => InitAction::CreateSymbolicLink {
            name: DOS_DEVICE_NAME,
            target: DEVICE_NAME,
        },
        InitEvent::DeviceCreated(Err(e)) => InitAction::Finish(Err(e)),
        InitEvent::SymbolicLinkCreated(Ok(())) => InitAction::Finish(Ok(())),
        InitEvent::SymbolicLinkCreated(Err(e)) => InitAction::Finish(Err(e)),
    }
}

} // verus!
