use vstd::prelude::*;
use crate::error::{Error, STATUS_SUCCESS};

verus! {

/// What completing an I/O request writes into its status block: the number of
/// bytes answered and the final status.
#[derive(Clone, Copy, Debug, PartialEq, Eq, Structural)]
pub struct IoStatusBlock {
    pub information: usize,
    pub status: i32,
}

/// An I/O request packet, known by its address.
pub struct IoRequest {
    irp: usize,
}

impl View for IoRequest {
    type V = usize;

    closed spec fn view(&self) -> usize {
        self.irp
    }
}

impl IoRequest {
    /// Takes hold of the request packet at address `irp`.
    pub fn from_raw(irp: usize) -> (r: IoRequest)
        ensures
            r@ == irp,
    {
        IoRequest { irp }
    }

    /// The address of the request packet.
    pub fn irp(&self) -> (irp: usize)
        ensures
            irp == self@,
    {
        self.irp
    }

    /// The status block that completes the request with `value`: success with
    /// the answer's byte count, or the error's status with no bytes.
    pub fn complete(&self, value: Result<usize, Error>) -> (block: IoStatusBlock)
        ensures
            value matches Ok(code) ==> block == (IoStatusBlock { information: code, status: STATUS_SUCCESS }),
            value matches Err(error) ==> block == (IoStatusBlock { information: 0, status: error@ }),
    {
        match value {
            Ok(code) => IoStatusBlock { information: code, status: STATUS_SUCCESS },
            Err(error) => IoStatusBlock { information: 0, status: error.to_nt_status() },
        }
    }
}

} // verus!
