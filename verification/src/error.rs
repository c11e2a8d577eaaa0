use vstd::prelude::*;

verus! {

/// `STATUS_SUCCESS`: the NTSTATUS value of a call that succeeded.
pub const STATUS_SUCCESS: i32 = 0;

/// `STATUS_NOT_IMPLEMENTED` (0xC0000002 read as a signed 32-bit NTSTATUS).
pub const STATUS_NOT_IMPLEMENTED: i32 = -1073741822;

/// A failed NTSTATUS, carried as the error of a `Result`.
#[derive(Clone, Copy, Debug, PartialEq, Eq, Structural)]
pub struct Error(i32);

impl View for Error {
    type V = i32;

    closed spec fn view(&self) -> i32 {
        self.0
    }
}

impl Error {
    /// The error that answers a request the driver does not serve
    /// (`STATUS_NOT_IMPLEMENTED`).
    #[allow(non_snake_case)]
    pub fn NOT_IMPLEMENTED() -> (e: Error)
        ensures
            e@ == STATUS_NOT_IMPLEMENTED,
    {
        Error(STATUS_NOT_IMPLEMENTED)
    }

    /// Wraps an NTSTATUS.
    pub fn from_nt_status(status: i32) -> (e: Error)
        ensures
            e@ == status,
    {
        Error(status)
    }

    /// The NTSTATUS that this error carries.
    pub fn to_nt_status(&self) -> (status: i32)
        ensures
            status == self@,
    {
        self.0
    }
}

/// Turns a status code into a `Result`.
pub trait IntoResult: Sized {
    fn into_result(self) -> Result<(), Error>;
}

impl IntoResult for i32 {
    /// `Ok(())` exactly for `STATUS_SUCCESS`; any other status becomes the error that carries it.
    fn into_result(self) -> (r: Result<(), Error>)
        ensures
            self == STATUS_SUCCESS <==> r is Ok,
            r matches Err(e) ==> e@ == self,
    {
        if self == STATUS_SUCCESS {
            Ok(())
        } else {
            Err(Error::from_nt_status(self))
        }
    }
}

} // verus!
