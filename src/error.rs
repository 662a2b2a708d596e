use vstd::prelude::*;

verus! {

/// Darwin's `EAGAIN` (equal to `EWOULDBLOCK` there).
pub const EAGAIN: i32 = 35;

/// The failures of the device layer.
#[derive(Debug, Clone, Copy, PartialEq, Eq, Structural)]
pub enum TunError {
    /// The operation has no meaning for the kind of the device.
    Unsupported,
    /// A system call failed with this error number.
    Os(i32),
    /// Caller data cannot be encoded into the kernel's fixed layout.
    InvalidConfiguration,
    /// A non-blocking transfer found no frame or no room.
    WouldBlock,
    /// The handle was released before the operation.
    Closed,
}

/// The error that an error number reported by the kernel stands for.
pub open spec fn error_of_errno(code: i32) -> TunError {
    if code == EAGAIN {
        TunError::WouldBlock
    } else {
        TunError::Os(code)
    }
}

/// Maps the error number of a failed system call to the library's error:
/// "try again" becomes `WouldBlock`, every other number is kept verbatim.
pub fn error_from_errno(code: i32) -> (r: TunError)
    ensures
        r == error_of_errno(code),
{
    if code == EAGAIN {
        TunError::WouldBlock
    } else {
        TunError::Os(code)
    }
}

} // verus!
